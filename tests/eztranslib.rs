use eztrans_sys::engine::{NativeReply, NativeRequest, Pending};
use eztrans_sys::{EzTransError, EzTransLib, TransErr};

fn ready_session(wide: bool) -> EzTransLib {
    let mut ez_trans = EzTransLib::new(Ok(()), wide).unwrap();
    let _args = ez_trans.initialize(None, None).unwrap();
    ez_trans.record_initialize(Ok(1)).unwrap();
    ez_trans
}

fn utf16(s: &str) -> Vec<u16> {
    s.encode_utf16().collect()
}

fn utf16_z(s: &str) -> Vec<u16> {
    let mut v = utf16(s);
    v.push(0);
    v
}

fn wide_request(p: &Pending) -> Vec<u16> {
    match &p.request {
        NativeRequest::Wide(w) => w.clone(),
        NativeRequest::Narrow(_) => panic!("expected a wide request"),
    }
}

fn narrow_request(p: &Pending) -> Vec<u8> {
    match &p.request {
        NativeRequest::Narrow(n) => n.clone(),
        NativeRequest::Wide(_) => panic!("expected a narrow request"),
    }
}

#[test]
fn test_hangul_encode_decode() {
    let ez_trans = ready_session(true);
    let original = "테스트@漢字㉷";
    let encoded = ez_trans.hangul_encode(original);
    println!("encoded: {}", encoded);
    let decoded = ez_trans.hangul_decode(&encoded);
    println!("decoded: {}", decoded);
    assert_eq!(original, decoded);
}

#[test]
fn test_hangul_encode() {
    let ez_trans = ready_session(true);
    let input = "Hello@세계";
    let expected = "Hello+x0040+xC138+xACC4";
    let encoded = ez_trans.hangul_encode(input);
    assert_eq!(encoded, expected);
}

#[test]
fn test_hangul_decode() {
    let ez_trans = ready_session(true);
    let input = "Hello+x0040세계";
    let expected = "Hello@세계";
    let decoded = ez_trans.hangul_decode(input);
    assert_eq!(decoded, expected);
}

#[test]
fn test_translate() {
    let ez_trans = ready_session(true);
    let original = "おはようございます。";
    let pending = ez_trans.translate(original).unwrap();
    assert_eq!(wide_request(&pending), utf16_z(original));
    let received = ez_trans.receive(&pending, NativeReply::Wide(utf16("안녕하세요.")));
    assert!(received.release);
    let translated = received.settle(Ok(())).unwrap();
    assert_eq!(translated, "안녕하세요.");
}

#[test]
fn escape_leaves_plain_text_alone() {
    let ez_trans = ready_session(true);
    for t in ["", "Hello, world!", "おはようございます。", "漢字 + x", "a+xyz"] {
        assert_eq!(ez_trans.hangul_encode(t), t);
    }
}

#[test]
fn plain_text_goes_to_the_engine_unescaped() {
    let ez_trans = ready_session(true);
    let pending = ez_trans.translate_and_encode("おはよう").unwrap();
    assert!(!pending.escaped);
    assert_eq!(wide_request(&pending), utf16_z("おはよう"));
}

#[test]
fn escaped_characters_round_trip() {
    let ez_trans = ready_session(true);
    for t in ["테스트", "@\0@", "㉷①ⓐ┒", "ᄀ\u{318F}\u{A960}\u{D7FF}가힣", "™€Ω"] {
        let encoded = ez_trans.hangul_encode(t);
        assert_ne!(encoded, t);
        assert_eq!(ez_trans.hangul_decode(&encoded), t);
    }
}

#[test]
fn special_symbols_use_the_upper_marker() {
    let ez_trans = ready_session(true);
    assert_eq!(ez_trans.hangul_encode("①"), "+X2460");
    assert_eq!(ez_trans.hangul_encode("a\0b"), "a+x0000b");
    assert_eq!(ez_trans.hangul_encode("￦"), "+XFFE6");
    assert!(ez_trans.needs_encoding('™'));
    assert!(!ez_trans.needs_encoding('A'));
    assert!(ez_trans.is_hangul_range(0xAC00));
    assert!(ez_trans.is_hangul_range(0x11FF));
    assert!(!ez_trans.is_hangul_range(0xD7A4));
    assert!(!ez_trans.is_hangul_range(0x3040));
}

#[test]
fn malformed_escapes_are_kept() {
    let ez_trans = ready_session(true);
    assert_eq!(ez_trans.hangul_decode("+xZZ12abc"), "+xZZ12abc");
    assert_eq!(ez_trans.hangul_decode("+x12"), "+x12");
    assert_eq!(ez_trans.hangul_decode("ab+X0"), "ab+X0");
    assert_eq!(ez_trans.hangul_decode("+xD800"), "+xD800");
    assert_eq!(ez_trans.hangul_decode("+x"), "+x");
    assert_eq!(ez_trans.hangul_decode("a+b"), "a+b");
    assert_eq!(ez_trans.hangul_decode("+"), "+");
    assert_eq!(ez_trans.hangul_decode("++x0041"), "+A");
    assert_eq!(ez_trans.hangul_decode("+x00e9+X00C9"), "éÉ");
    assert_eq!(ez_trans.hangul_decode("+x가나다라"), "+x가나다라");
}

#[test]
fn translate_before_initialize_is_refused() {
    let ez_trans = EzTransLib::new(Ok(()), true).unwrap();
    assert!(matches!(ez_trans.translate("abc"), Err(EzTransError::NotInitialized)));
    assert!(matches!(ez_trans.translate_and_encode("세계"), Err(EzTransError::NotInitialized)));
}

#[test]
fn failed_initialize_keeps_translation_refused() {
    let mut ez_trans = EzTransLib::new(Ok(()), false).unwrap();
    assert_eq!(ez_trans.record_initialize(Ok(0)), Err(EzTransError::InitializationError));
    assert!(matches!(ez_trans.translate("abc"), Err(EzTransError::NotInitialized)));
    let missing = EzTransError::SymbolLoadError("J2K_InitializeEx".to_string());
    assert_eq!(ez_trans.record_initialize(Err(missing.clone())), Err(missing));
    assert!(matches!(ez_trans.translate("abc"), Err(EzTransError::NotInitialized)));
}

#[test]
fn terminate_twice_reports_the_second_outcome() {
    let mut ez_trans = ready_session(true);
    assert!(ez_trans.needs_teardown());
    assert_eq!(ez_trans.terminate(Ok(0)), Ok(()));
    assert!(!ez_trans.needs_teardown());
    assert_eq!(ez_trans.terminate(Ok(-1)), Err(EzTransError::TerminationError));
    assert!(matches!(ez_trans.translate("abc"), Err(EzTransError::NotInitialized)));
}

#[test]
fn failed_terminate_leaves_teardown_owed() {
    let mut ez_trans = ready_session(false);
    assert_eq!(ez_trans.terminate(Ok(3)), Err(EzTransError::TerminationError));
    assert!(ez_trans.needs_teardown());
}

#[test]
fn null_reply_is_not_released() {
    let ez_trans = ready_session(true);
    let pending = ez_trans.translate("abc").unwrap();
    let received = ez_trans.receive(&pending, NativeReply::Null);
    assert!(!received.release);
    assert_eq!(
        received.settle(Ok(())),
        Err(EzTransError::TranslationError(TransErr::NullPointer))
    );
}

#[test]
fn escaped_translation_is_unescaped() {
    let ez_trans = ready_session(true);
    let pending = ez_trans.translate_and_encode("Hello@세계").unwrap();
    assert!(pending.escaped);
    assert_eq!(wide_request(&pending), utf16_z("Hello+x0040+xC138+xACC4"));
    let received = ez_trans.receive(&pending, NativeReply::Wide(utf16("Hi+x0040+xC138+xACC4")));
    assert_eq!(received.settle(Ok(())), Ok("Hi@세계".to_string()));
}

#[test]
fn wide_reply_with_lone_surrogate_fails_but_is_released() {
    let ez_trans = ready_session(true);
    let pending = ez_trans.translate("abc").unwrap();
    let received = ez_trans.receive(&pending, NativeReply::Wide(vec![0x41, 0xD800]));
    assert!(received.release);
    assert_eq!(
        received.settle(Ok(())),
        Err(EzTransError::Utf16Error("invalid utf-16: lone surrogate found".to_string()))
    );
}

#[test]
fn wide_reply_with_surrogate_pair_decodes() {
    let ez_trans = ready_session(true);
    let pending = ez_trans.translate("😀").unwrap();
    assert_eq!(wide_request(&pending), vec![0xD83D, 0xDE00, 0]);
    let received = ez_trans.receive(&pending, NativeReply::Wide(vec![0xD83D, 0xDE00, 0x41]));
    assert_eq!(received.settle(Ok(())), Ok("😀A".to_string()));
}

#[test]
fn narrow_request_is_shift_jis() {
    let ez_trans = ready_session(false);
    let pending = ez_trans.translate("abc").unwrap();
    assert_eq!(narrow_request(&pending), vec![b'a', b'b', b'c', 0]);
    let pending = ez_trans.translate("おはよう").unwrap();
    assert_eq!(narrow_request(&pending), vec![0x82, 0xA8, 0x82, 0xCD, 0x82, 0xE6, 0x82, 0xA4, 0]);
    assert_eq!(ez_trans.translate_mmnt("は"), vec![0x82, 0xCD, 0]);
    assert_eq!(ez_trans.translate_mmntw("は"), vec![0x306F, 0]);
}

#[test]
fn narrow_reply_is_euc_kr() {
    let ez_trans = ready_session(false);
    let pending = ez_trans.translate("abc").unwrap();
    let received = ez_trans.receive(&pending, NativeReply::Narrow(vec![0xBE, 0xC8, 0xB3, 0xE7]));
    assert!(received.release);
    assert_eq!(received.settle(Ok(())), Ok("안녕".to_string()));
}

#[test]
fn malformed_euc_kr_reply_fails_but_is_released() {
    let ez_trans = ready_session(false);
    let pending = ez_trans.translate("abc").unwrap();
    let received = ez_trans.receive(&pending, NativeReply::Narrow(vec![0x41, 0x80]));
    assert!(received.release);
    assert_eq!(
        received.settle(Ok(())),
        Err(EzTransError::TranslationError(TransErr::EucKrDecodeFailed))
    );
}

#[test]
fn failed_release_is_reported_after_decoding() {
    let ez_trans = ready_session(true);
    let pending = ez_trans.translate("abc").unwrap();
    let missing = EzTransError::SymbolLoadError("J2K_FreeMem".to_string());
    let received = ez_trans.receive(&pending, NativeReply::Wide(utf16("x")));
    assert_eq!(received.settle(Err(missing.clone())), Err(missing.clone()));
    let received = ez_trans.receive(&pending, NativeReply::Wide(vec![0xDC00]));
    assert!(matches!(received.settle(Err(missing)), Err(EzTransError::Utf16Error(_))));
}

#[test]
fn initialize_arguments() {
    let ez_trans = EzTransLib::new(Ok(()), true).unwrap();
    let args = ez_trans.initialize(None, None).unwrap();
    assert_eq!(args.init, "CSUSER123455");
    assert_eq!(args.home, "C:/Program Files (x86)/ChangShinSoft/ezTrans XP/Dat");
    let args = ez_trans.initialize(Some("TOKEN"), Some("D:/ez")).unwrap();
    assert_eq!(args.init, "TOKEN");
    assert_eq!(args.home, "D:/ez/Dat");
}

#[test]
fn initialize_refuses_embedded_nul() {
    let ez_trans = EzTransLib::new(Ok(()), true).unwrap();
    assert!(matches!(
        ez_trans.initialize(Some("ab\0c"), None),
        Err(EzTransError::InvalidString(2))
    ));
    assert!(matches!(
        ez_trans.initialize(None, Some("\0dir")),
        Err(EzTransError::InvalidString(0))
    ));
}

#[test]
fn dll_path_inside_folder() {
    assert_eq!(
        EzTransLib::dll_path(None),
        "C:/Program Files (x86)/ChangShinSoft/ezTrans XP/J2KEngine.dll"
    );
    assert_eq!(EzTransLib::dll_path(Some("/opt/ez")), "/opt/ez/J2KEngine.dll");
}

#[test]
fn construction_fails_with_the_load_error() {
    let err = EzTransError::LibraryLoadError("no such file".to_string());
    assert!(matches!(EzTransLib::new(Err(err.clone()), true), Err(e) if e == err));
    let lib = EzTransLib::new(Ok(()), false).unwrap();
    assert!(!lib.ehnd_support);
}

#[test]
fn trans_err_messages() {
    assert_eq!(TransErr::NullPointer.message(), "TRANSLATE func returned a null pointer");
    assert_eq!(TransErr::Failed.message(), "Translation failed");
    assert_eq!(TransErr::EucKrDecodeFailed.message(), "EUC-KR decoding failed");
}

const SPECIAL_SYMBOLS: [&str; 9] = [
    "↔◁◀▷▶♤♠♡♥♧♣⊙◈▣◐◑▒▤▥▨▧▦▩♨☏☎☜☞↕↗↙↖↘♩♬㉿㈜㏇™㏂",
    "㏘＂＇∼ˇ˘˝¡˚˙˛¿ː∏￦℉€㎕㎖㎗ℓ㎘㎣㎤㎥㎦㎙㎚㎛㎟㎠㎢㏊㎍㏏㎈㎉㏈㎧㎨",
    "㎰㎱㎲㎳㎴㎵㎶㎷㎸㎀㎁㎂㎃㎄㎺㎻㎼㎽㎾㎿㎐㎑㎒㎓㎔Ω㏀㏁㎊㎋㎌㏖㏅㎭㎮㎯㏛㎩㎪㎫",
    "㎬㏝㏐㏓㏃㏉㏜㏆┒┑┚┙┖┕┎┍┞┟┡┢┦┧┪┭┮┵┶┹┺┽┾╀╁╃╄╅╆╇╈╉",
    "╊┱┲ⅰⅱⅲⅳⅴⅵⅶⅷⅸⅹ½⅓⅔¼¾⅛⅜⅝⅞ⁿ₁₂₃₄ŊđĦĲĿŁŒŦħıĳĸŀ",
    "łœŧŋŉ㉠㉡㉢㉣㉤㉥㉦㉧㉨㉩㉪㉫㉬㉭㉮㉯㉰㉱㉲㉳㉴㉵㉶㉷㉸㉹㉺㉻㈀㈁㈂㈃㈄㈅㈆",
    "㈇㈈㈉㈊㈋㈌㈍㈎㈏㈐㈑㈒㈓㈔㈕㈖㈗㈘㈙㈚㈛ⓐⓑⓒⓓⓔⓕⓖⓗⓘⓙⓚⓛⓜⓝⓞⓟⓠⓡⓢ",
    "ⓣⓤⓥⓦⓧⓨⓩ①②③④⑤⑥⑦⑧⑨⑩⑪⑫⑬⑭⑮⒜⒝⒞⒟⒠⒡⒢⒣⒤⒥⒦⒧⒨⒩⒪⒫⒬⒭",
    "⒮⒯⒰⒱⒲⒳⒴⒵⑴⑵⑶⑷⑸⑹⑺⑻⑼⑽⑾⑿⒀⒁⒂",
];

#[test]
fn special_symbol_table_is_exact() {
    let ez_trans = ready_session(true);
    let listed: Vec<char> = SPECIAL_SYMBOLS.iter().flat_map(|s| s.chars()).collect();
    assert_eq!(listed.len(), 343);
    for c in &listed {
        assert!(ez_trans.needs_encoding(*c), "{:?} should be escaped", c);
        assert_eq!(ez_trans.hangul_encode(&c.to_string()), format!("+X{:04X}", *c as u32));
    }
    let found = (0u32..0x10000)
        .filter_map(char::from_u32)
        .filter(|c| ez_trans.needs_encoding(*c))
        .count();
    assert_eq!(found, 343);
}
