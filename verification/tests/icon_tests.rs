use pake_shell::icon::{icon_candidates, pick_first_present, select_icon};

#[test]
fn ascii_name_yields_four_candidates_in_priority_order() {
    let candidates = icon_candidates("demo", "/opt/app");
    let expected = vec![
        "png/demo_32.ico".to_string(),
        "/opt/app/png/demo_32.ico".to_string(),
        "png/icon_32.ico".to_string(),
        "/opt/app/png/icon_32.ico".to_string(),
    ];
    assert_eq!(candidates, expected);
}

#[test]
fn non_ascii_name_adds_hashed_fallback_pair() {
    let name = "微信";
    let digest = format!("{:x}", md5::compute(name.as_bytes()));
    let hashed = format!("png/app{}_32.ico", &digest[..8]);
    let candidates = icon_candidates(name, "/opt/app");
    let expected = vec![
        format!("png/{}_32.ico", name),
        format!("/opt/app/png/{}_32.ico", name),
        hashed.clone(),
        format!("/opt/app/{}", hashed),
        "png/icon_32.ico".to_string(),
        "/opt/app/png/icon_32.ico".to_string(),
    ];
    assert_eq!(candidates, expected);
}

#[test]
fn icon_resolution_is_deterministic() {
    let first = icon_candidates("微信读书", "/exe/dir");
    let second = icon_candidates("微信读书", "/exe/dir");
    assert_eq!(first, second);
    let present = vec![false, true, true, false, false, false];
    assert_eq!(pick_first_present(&present), Some(1));
    assert_eq!(pick_first_present(&present), Some(1));
}

#[test]
fn first_existing_candidate_wins() {
    let candidates = icon_candidates("demo", "/opt/app");
    let present = vec![false, false, true, true];
    let chosen = select_icon(&candidates, &present).expect("a candidate is present");
    assert_eq!(chosen, "png/icon_32.ico");
    let present = vec![true, false, true, true];
    let chosen = select_icon(&candidates, &present).expect("a candidate is present");
    assert_eq!(chosen, "png/demo_32.ico");
}

#[test]
fn no_existing_candidate_yields_no_icon() {
    let candidates = icon_candidates("demo", "/opt/app");
    let present = vec![false, false, false, false];
    assert!(select_icon(&candidates, &present).is_none());
    assert_eq!(pick_first_present(&present), None);
}
