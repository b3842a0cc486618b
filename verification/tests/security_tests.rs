use wrs32::sid::{decode_wide, lookup_step, sid_length, LookupAction, LookupReply, LookupStage, Sid};
use wrs32::token::{info_step, InfoAction, InfoFault, InfoReply, InfoStage};
use wrs32::layout::BufError;
use wrs32::win32::{accept_handle, check_win32_status, hresult_of_win32, is_insufficient_buffer};

const INSUFFICIENT_BUFFER: i32 = 0x8007_007Au32 as i32;

#[test]
fn win32_codes_map_to_hresults() {
    assert_eq!(hresult_of_win32(0), 0);
    assert_eq!(hresult_of_win32(122), INSUFFICIENT_BUFFER);
    assert_eq!(hresult_of_win32(5), 0x8007_0005u32 as i32);
    assert_eq!(hresult_of_win32(0x8000_4005), 0x8000_4005u32 as i32);
    assert_eq!(hresult_of_win32(0x0001_0005), 0x8007_0005u32 as i32);
}

#[test]
fn insufficient_buffer_is_recognised() {
    assert!(is_insufficient_buffer(INSUFFICIENT_BUFFER));
    assert!(!is_insufficient_buffer(122));
    assert!(!is_insufficient_buffer(0));
}

#[test]
fn win32_status() {
    assert_eq!(check_win32_status(0), Ok(()));
    assert_eq!(check_win32_status(5), Err(0x8007_0005u32 as i32));
}

#[test]
fn handles() {
    assert_eq!(accept_handle(0), None);
    assert_eq!(accept_handle(-1), None);
    assert_eq!(accept_handle(0x44), Some(0x44));
}

#[test]
fn token_query_delivers() {
    let (stage, action) = info_step::<u64>(
        InfoStage::AwaitingSize,
        InfoReply { error: Some(INSUFFICIENT_BUFFER), needed: 40 },
    );
    assert_eq!(action, InfoAction::Fill { size: 40 });
    assert_eq!(stage, Some(InfoStage::AwaitingFill { allocated: 40 }));
    let (stage, action) = info_step::<u64>(stage.unwrap(), InfoReply { error: None, needed: 40 });
    assert_eq!(action, InfoAction::Deliver);
    assert_eq!(stage, None);
}

#[test]
fn token_query_needs_insufficient_buffer() {
    let (stage, action) = info_step::<u64>(InfoStage::AwaitingSize, InfoReply { error: None, needed: 40 });
    assert_eq!(action, InfoAction::Abandon { fault: InfoFault::NotInsufficientBuffer });
    assert_eq!(stage, None);
    let (_, action) = info_step::<u64>(
        InfoStage::AwaitingSize,
        InfoReply { error: Some(0x8007_0005u32 as i32), needed: 40 },
    );
    assert_eq!(action, InfoAction::Abandon { fault: InfoFault::NotInsufficientBuffer });
}

#[test]
fn token_query_needs_room_for_the_value() {
    let (_, action) = info_step::<u64>(
        InfoStage::AwaitingSize,
        InfoReply { error: Some(INSUFFICIENT_BUFFER), needed: 4 },
    );
    assert_eq!(action, InfoAction::Abandon { fault: InfoFault::Layout(BufError::SizeTooSmall) });
}

#[test]
fn token_query_failures() {
    let (_, action) = info_step::<u64>(
        InfoStage::AwaitingFill { allocated: 40 },
        InfoReply { error: Some(0x8007_0005u32 as i32), needed: 40 },
    );
    assert_eq!(action, InfoAction::CallFailed);
    let (_, action) = info_step::<u64>(InfoStage::AwaitingFill { allocated: 40 }, InfoReply { error: None, needed: 48 });
    assert_eq!(action, InfoAction::SizeChanged);
}

#[test]
fn sid_copy_keeps_bytes() {
    // S-1-5-32-544, "Administrators"
    let raw = [1u8, 2, 0, 0, 0, 0, 0, 5, 32, 0, 0, 0, 32, 2, 0, 0];
    assert_eq!(sid_length(&raw), Some(raw.len()));
    let sid = Sid::copy_raw(&raw);
    assert_eq!(sid.as_bytes(), &raw);
}

#[test]
fn sid_length_comes_from_a_valid_header() {
    assert_eq!(sid_length(&[1, 2]), Some(16));
    assert_eq!(sid_length(&[1, 0, 0, 0, 0, 0, 0, 1]), Some(8));
    assert_eq!(sid_length(&[1, 15]), Some(68));
    assert_eq!(sid_length(&[1, 16]), None);
    assert_eq!(sid_length(&[2, 2]), None);
    assert_eq!(sid_length(&[0, 1]), None);
    assert_eq!(sid_length(&[1]), None);
    assert_eq!(sid_length(&[]), None);
}

#[test]
fn well_known_sid_is_copied() {
    // S-1-1-0, "Everyone"
    let everyone = [1u8, 1, 0, 0, 0, 0, 0, 1, 0, 0, 0, 0];
    assert_eq!(sid_length(&everyone), Some(everyone.len()));
    let sid = Sid::copy_raw(&everyone);
    assert_eq!(sid.as_bytes(), &everyone);
}

fn wide(s: &str) -> Vec<u16> {
    s.encode_utf16().collect()
}

#[test]
fn wide_strings_end_at_nul() {
    let mut units = wide("Administrator");
    units.push(0);
    units.extend(wide("junk"));
    assert_eq!(decode_wide(&units), Some(String::from("Administrator")));
    assert_eq!(decode_wide(&wide("Gäst")), Some(String::from("Gäst")));
    assert_eq!(decode_wide(&[0, 65]), Some(String::new()));
    assert_eq!(decode_wide(&[]), Some(String::new()));
    assert_eq!(decode_wide(&[0xD800, 0]), None);
    assert_eq!(decode_wide(&[0xD83D, 0xDE00, 0]), Some(String::from("\u{1F600}")));
}

#[test]
fn lookup_asks_lengths_then_names() {
    let (stage, action) = lookup_step(
        LookupStage::AwaitingSizes,
        &LookupReply { failed: true, name_len: 6, domain_len: 9, name: Vec::new() },
    );
    assert!(matches!(action, LookupAction::Fetch { name_len: 6, domain_len: 9 }));
    assert_eq!(stage, Some(LookupStage::AwaitingNames { name_len: 6, domain_len: 9 }));
    let mut name = wide("alice");
    name.push(0);
    let (stage, action) = lookup_step(
        stage.unwrap(),
        &LookupReply { failed: false, name_len: 5, domain_len: 8, name },
    );
    assert_eq!(stage, None);
    match action {
        LookupAction::Deliver { name } => assert_eq!(name, "alice"),
        _ => panic!("expected a name"),
    }
}

#[test]
fn lookup_failures() {
    let (stage, action) = lookup_step(
        LookupStage::AwaitingSizes,
        &LookupReply { failed: false, name_len: 0, domain_len: 0, name: Vec::new() },
    );
    assert!(matches!(action, LookupAction::Abandon));
    assert_eq!(stage, None);
    let names = LookupStage::AwaitingNames { name_len: 2, domain_len: 2 };
    let (_, action) = lookup_step(names, &LookupReply { failed: true, name_len: 2, domain_len: 2, name: vec![65, 0] });
    assert!(matches!(action, LookupAction::CallFailed));
    let (_, action) = lookup_step(names, &LookupReply { failed: false, name_len: 1, domain_len: 2, name: vec![0xDC00, 0] });
    assert!(matches!(action, LookupAction::Undecodable { code } if code == 0x8007_0459u32 as i32));
}
