use codex_asr::media::{
    audio_type_for_content_type, decoded_wav_filename, extension_for_content_type,
    has_recognized_audio_extension, infer_content_type, is_generic_content_type, is_silk_path,
    looks_like_mp3_frame, normalize_upload_metadata, sanitize_filename, sniff_audio,
    upload_filename, upload_suffix,
};
use codex_asr::path::AudioPath;

#[test]
fn content_type_is_inferred_from_extension() {
    assert_eq!(infer_content_type(&AudioPath::new("voice.wav")), "audio/wav");
    assert_eq!(infer_content_type(&AudioPath::new("voice.webm")), "audio/webm");
    assert_eq!(
        infer_content_type(&AudioPath::new("voice.unknown")),
        "application/octet-stream"
    );
}

#[test]
fn upload_filename_uses_content_type_when_extension_is_unknown() {
    assert_eq!(upload_filename(&AudioPath::new("voice"), "audio/wav"), "voice.wav");
    assert_eq!(upload_filename(&AudioPath::new("voice.bin"), "audio/webm"), "voice.webm");
    assert_eq!(upload_filename(&AudioPath::new("voice.wav"), "audio/webm"), "voice.wav");
    assert_eq!(
        upload_filename(&AudioPath::new("voice.bin"), "application/octet-stream"),
        "voice.bin"
    );
}

#[test]
fn silk_paths_are_detected_case_insensitively() {
    assert!(is_silk_path(&AudioPath::new("voice.silk")));
    assert!(is_silk_path(&AudioPath::new("voice.SLK")));
    assert!(!is_silk_path(&AudioPath::new("voice.wav")));
}

#[test]
fn decoded_wav_filename_uses_original_stem() {
    assert_eq!(
        decoded_wav_filename(&AudioPath::new("/tmp/example.silk")),
        "example.wav"
    );
    assert_eq!(decoded_wav_filename(&AudioPath::new(".silk")), "voice.wav");
}

#[test]
fn upload_metadata_sniffs_wav_when_sdk_omits_metadata() {
    let wav = b"RIFF\x24\x00\x00\x00WAVEfmt ";
    assert_eq!(
        sniff_audio(wav).map(|audio| audio.content_type),
        Some("audio/wav")
    );
    assert_eq!(
        normalize_upload_metadata("audio", "application/octet-stream".to_string(), wav),
        ("audio.wav".to_string(), "audio/wav".to_string())
    );
}

#[test]
fn upload_metadata_keeps_explicit_audio_filename() {
    let wav = b"RIFF\x24\x00\x00\x00WAVEfmt ";
    assert_eq!(
        normalize_upload_metadata("clip.wav", "application/octet-stream".to_string(), wav),
        ("clip.wav".to_string(), "audio/wav".to_string())
    );
}

#[test]
fn every_known_extension_has_a_content_type() {
    for (name, expected) in [
        ("a.wav", "audio/wav"),
        ("a.WAVE", "audio/wav"),
        ("a.webm", "audio/webm"),
        ("a.Mp3", "audio/mpeg"),
        ("a.m4a", "audio/mp4"),
        ("a.mp4", "audio/mp4"),
        ("a.ogg", "audio/ogg"),
        ("a.oga", "audio/ogg"),
        ("a.flac", "audio/flac"),
        ("a.silk", "application/octet-stream"),
        ("wav", "application/octet-stream"),
        (".wav", "application/octet-stream"),
        ("a.", "application/octet-stream"),
        ("a.wav/", "audio/wav"),
        ("", "application/octet-stream"),
    ] {
        assert_eq!(infer_content_type(&AudioPath::new(name)), expected, "{name}");
    }
}

#[test]
fn content_types_have_extensions() {
    for (content_type, expected) in [
        ("audio/wav", Some("wav")),
        ("audio/x-wav", Some("wav")),
        ("audio/wave", Some("wav")),
        ("audio/mpeg", Some("mp3")),
        ("audio/mp3", Some("mp3")),
        ("audio/mp4", Some("m4a")),
        ("audio/m4a", Some("m4a")),
        ("audio/x-m4a", Some("m4a")),
        ("audio/flac", Some("flac")),
        ("audio/x-flac", Some("flac")),
        ("audio/ogg", Some("ogg")),
        ("audio/webm", Some("webm")),
        (" AUDIO/WebM ; codecs=opus", Some("webm")),
        ("audio/silk", None),
        ("audio", None),
        ("", None),
    ] {
        assert_eq!(extension_for_content_type(content_type), expected, "{content_type}");
        let kind = audio_type_for_content_type(content_type);
        if content_type == "audio/silk" {
            assert_eq!(kind.map(|k| (k.content_type, k.extension)), Some(("audio/silk", "silk")));
            assert_eq!(upload_suffix("a", content_type), ".silk");
        } else {
            assert_eq!(kind.map(|k| k.extension), expected, "{content_type}");
            let suffix = expected.map_or(".bin".to_string(), |e| format!(".{e}"));
            assert_eq!(upload_suffix("a", content_type), suffix, "{content_type}");
        }
    }
    assert!(audio_type_for_content_type("Audio/X-Silk;v=3").is_some());
}

#[test]
fn formats_are_sniffed() {
    for (bytes, expected) in [
        (&b"RIFF....WAVE"[..], Some(("audio/wav", "wav"))),
        (b"RIFF....WAV", None),
        (b"RIFF....AVI ", None),
        (b"ID3", Some(("audio/mpeg", "mp3"))),
        (b"\xff\xe0", Some(("audio/mpeg", "mp3"))),
        (b"\xff\xfb\x90", Some(("audio/mpeg", "mp3"))),
        (b"\xff\xdf", None),
        (b"\xff", None),
        (b"fLaC", Some(("audio/flac", "flac"))),
        (b"OggS", Some(("audio/ogg", "ogg"))),
        (b"\x1a\x45\xdf\xa3", Some(("audio/webm", "webm"))),
        (b"....ftyp", Some(("audio/mp4", "m4a"))),
        (b"....fty", None),
        (b"#!SILK_V3", Some(("audio/silk", "silk"))),
        (b"\x02#!SILK_V3", Some(("audio/silk", "silk"))),
        (b"\x03#!SILK_V3", None),
        (b"", None),
    ] {
        assert_eq!(sniff_audio(bytes).map(|k| (k.content_type, k.extension)), expected, "{bytes:?}");
    }
    assert!(looks_like_mp3_frame(b"\xff\xff"));
    assert!(!looks_like_mp3_frame(b"\xfe\xff"));
}

#[test]
fn names_are_sanitized() {
    for (name, expected) in [
        ("voice.wav", "voice.wav"),
        ("/etc/voice.wav", "voice.wav"),
        ("../x", "x"),
        ("a\"b\".mp3", "ab.mp3"),
        ("..", "audio"),
        ("", "audio"),
        (" \t", "audio"),
        ("\"", ""),
    ] {
        assert_eq!(sanitize_filename(name), expected, "{name:?}");
    }
}

#[test]
fn names_without_a_format_are_completed() {
    let wav = b"RIFF\x24\x00\x00\x00WAVEfmt ";
    for (name, content_type, bytes, expected_name, expected_type) in [
        ("voice.bin", "audio/mpeg", &wav[..], "voice.wav", "audio/mpeg"),
        (".hidden", "", &wav[..], "audio.wav", "audio/wav"),
        ("voice", "audio/x-m4a; a=b", &b"??"[..], "voice.m4a", "audio/x-m4a; a=b"),
        ("voice.x", "text/plain", &b"??"[..], "voice.x", "text/plain"),
        ("voice.slk", "binary/octet-stream ;x", &b"??"[..], "voice.slk", "binary/octet-stream ;x"),
        ("voice.mp3", "application/octet-stream", &wav[..], "voice.mp3", "audio/wav"),
    ] {
        let (n, t) = normalize_upload_metadata(name, content_type.to_string(), bytes);
        assert_eq!((n.as_str(), t.as_str()), (expected_name, expected_type));
        let again = normalize_upload_metadata(&n, t.clone(), bytes);
        assert_eq!(again, (n, t));
    }
}

#[test]
fn names_tell_their_format() {
    assert!(has_recognized_audio_extension("a.wav"));
    assert!(has_recognized_audio_extension("a.SLK"));
    assert!(!has_recognized_audio_extension("a.aac"));
    assert!(is_generic_content_type(" Application/Octet-Stream; x"));
    assert!(is_generic_content_type(""));
    assert!(is_generic_content_type(";x"));
    assert!(is_generic_content_type("binary/octet-stream"));
    assert!(!is_generic_content_type("audio/wav"));
    assert_eq!(upload_suffix("a.silk", "audio/wav"), ".silk");
    assert_eq!(upload_suffix("a.", "audio/wav"), ".wav");
    assert_eq!(decoded_wav_filename(&AudioPath::new("..")), "voice.wav");
    assert_eq!(upload_filename(&AudioPath::new(""), "audio/wav"), "codex.wav");
    assert_eq!(upload_filename(&AudioPath::new(""), "x"), "codex");
    assert_eq!(upload_filename(&AudioPath::new(".hidden"), "audio/flac"), "codex.flac");
    assert_eq!(upload_filename(&AudioPath::new(".hidden"), "x"), ".hidden");
}
