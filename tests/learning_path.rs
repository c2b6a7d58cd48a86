use demo_up::{map_learning_path_to_session_name, session_name};

#[test]
fn learning_path_expands_to_five_sessions() {
    assert_eq!(
        map_learning_path_to_session_name("SRE"),
        vec!["SRE10", "SRE20", "SRE30", "SRE40", "SRE50"]
    );
}

#[test]
fn session_name_joins_path_and_number() {
    assert_eq!(session_name("DAT", "30"), "DAT30");
}
