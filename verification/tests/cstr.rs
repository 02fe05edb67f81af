use fluidlite::{find_nul, str_from_c_buffer, terminate, to_c_string};

#[test]
fn find_nul_gives_the_first_zero_byte() {
    assert_eq!(find_nul(b"ab\0cd\0"), Some(2));
    assert_eq!(find_nul(b"\0"), Some(0));
    assert_eq!(find_nul(b"abc"), None);
    assert_eq!(find_nul(b""), None);
}

#[test]
fn terminate_appends_one_zero_byte() {
    assert_eq!(terminate(b"no"), vec![b'n', b'o', 0]);
    assert_eq!(terminate(b""), vec![0]);
    assert_eq!(terminate(b"a\0b"), vec![b'a', 0, b'b', 0]);
}

#[test]
fn to_c_string_refuses_an_inner_zero_byte() {
    assert_eq!(to_c_string(b"synth.gain"), Some(terminate(b"synth.gain")));
    assert_eq!(to_c_string(b""), Some(vec![0]));
    assert_eq!(to_c_string(b"synth\0gain"), None);
    assert_eq!(to_c_string(b"gain\0"), None);
}

#[test]
fn a_terminated_text_reads_back() {
    let name = "synth.drums-channel.active";
    let c_name = to_c_string(name.as_bytes()).unwrap();
    assert_eq!(str_from_c_buffer(&c_name), Some(name));
}

#[test]
fn a_text_that_was_cut_short_reads_back_up_to_the_cut() {
    assert_eq!(str_from_c_buffer(&terminate(b"yes\0no")), Some("yes"));
}

#[test]
fn str_from_c_buffer_reads_text() {
    assert_eq!(str_from_c_buffer(b"Boomwhacker\0\0\0"), Some("Boomwhacker"));
    assert_eq!(str_from_c_buffer(b"\0"), Some(""));
    assert_eq!(str_from_c_buffer("gr\u{fc}n\0".as_bytes()), Some("gr\u{fc}n"));
}

#[test]
fn str_from_c_buffer_refuses_what_is_no_text() {
    assert_eq!(str_from_c_buffer(b"Boomwhacker"), None);
    assert_eq!(str_from_c_buffer(&[0xff, 0xfe, 0]), None);
    assert_eq!(str_from_c_buffer(&[0xc3, 0]), None);
}

#[test]
fn str_from_c_buffer_ignores_what_follows_the_text() {
    assert_eq!(str_from_c_buffer(&[b'o', b'k', 0, 0xff, 0xff]), Some("ok"));
}
