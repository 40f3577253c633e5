use rpresence::activity::{
    Activity, ActivityAssets, ActivityButton, ActivityParty, ActivitySecrets, ActivityTimestamps,
    ActivityType,
};
use rpresence::json::{escape_json, push_decimal};
use rpresence::packet::Packet;

fn json(a: &Activity) -> String {
    let mut s = String::new();
    assert!(a.push_json(&mut s).is_ok());
    s
}

#[test]
fn escape_json_escapes_special_characters() {
    assert_eq!(escape_json("plain"), "plain");
    assert_eq!(escape_json(""), "");
    assert_eq!(escape_json("a\"b"), "a\\\"b");
    assert_eq!(escape_json("back\\slash"), "back\\\\slash");
    assert_eq!(escape_json("l1\nl2\r\tx"), "l1\\nl2\\r\\tx");
    assert_eq!(escape_json("é\"ü"), "é\\\"ü");
}

#[test]
fn escape_json_escapes_other_control_characters() {
    assert_eq!(escape_json("a\u{8}b\u{c}c"), "a\\bb\\fc");
    assert_eq!(escape_json("\u{0}\u{1f}\u{1b}"), "\\u0000\\u001f\\u001b");
    assert_eq!(escape_json("\u{20}\u{7f}"), "\u{20}\u{7f}");
}

#[test]
fn instance_flag_is_sent_when_set() {
    assert_eq!(
        json(&Activity::new().instance(true)),
        "{\"type\":0,\"instance\":true}"
    );
    assert_eq!(
        json(&Activity::new().details("d").instance(false)),
        "{\"type\":0,\"details\":\"d\",\"instance\":false}"
    );
}

#[test]
fn every_text_member_is_escaped() {
    let buttons = [ActivityButton::new("l", "https://x/?q=\"1\"")];
    let a = Activity::new()
        .party_id("p\"1")
        .match_secret("m\\")
        .small_image("i\n")
        .buttons(&buttons);
    assert_eq!(
        json(&a),
        "{\"type\":0,\"party\":{\"id\":\"p\\\"1\"},\
         \"secrets\":{\"match_id\":\"m\\\\\"},\
         \"assets\":{\"small_image\":\"i\\n\"},\
         \"buttons\":[{\"label\":\"l\",\"url\":\"https://x/?q=\\\"1\\\"\"}]}"
    );
}

#[test]
fn decimal_numbers() {
    let mut s = String::from("n=");
    push_decimal(&mut s, 0);
    assert_eq!(s, "n=0");
    let mut s = String::new();
    push_decimal(&mut s, 1234567890);
    assert_eq!(s, "1234567890");
    let mut s = String::new();
    push_decimal(&mut s, u128::MAX);
    assert_eq!(s, u128::MAX.to_string());
}

#[test]
fn type_codes() {
    assert_eq!(ActivityType::Playing.to_u8(), 0);
    assert_eq!(ActivityType::Listening.to_u8(), 2);
    assert_eq!(ActivityType::Watching.to_u8(), 3);
}

#[test]
fn empty_activity_json() {
    assert_eq!(json(&Activity::new()), "{\"type\":0}");
}

#[test]
fn details_and_state_are_escaped() {
    let a = Activity::new().details("test").state("say \"hi\"");
    assert_eq!(
        json(&a),
        "{\"type\":0,\"details\":\"test\",\"state\":\"say \\\"hi\\\"\"}"
    );
}

#[test]
fn timestamps_members() {
    assert_eq!(
        json(&Activity::new().start_time(5)),
        "{\"type\":0,\"timestamps\":{\"start\":5}}"
    );
    assert_eq!(
        json(&Activity::new().end_time(9)),
        "{\"type\":0,\"timestamps\":{\"end\":9}}"
    );
    assert_eq!(
        json(&Activity::new().start_time(5).end_time(9)),
        "{\"type\":0,\"timestamps\":{\"start\":5,\"end\":9}}"
    );
    assert_eq!(
        json(&Activity::new().timestamps(ActivityTimestamps::with_end(1))),
        "{\"type\":0,\"timestamps\":{\"end\":1}}"
    );
    assert_eq!(
        json(&Activity::new().timestamps(ActivityTimestamps::default())),
        "{\"type\":0}"
    );
}

#[test]
fn party_secrets_assets_buttons() {
    let buttons = [
        ActivityButton::new("Go \"now\"", "https://a.example"),
        ActivityButton::new("Two", "https://b.example"),
    ];
    let a = Activity::new()
        .ty(ActivityType::Watching)
        .party_id("p1")
        .party_size([2, 4])
        .join_secret("j")
        .spectate_secret("s")
        .large_image("big")
        .small_text("tip\n")
        .buttons(&buttons);
    assert_eq!(
        json(&a),
        "{\"type\":3,\"party\":{\"id\":\"p1\",\"size\":[2,4]},\
         \"secrets\":{\"join\":\"j\",\"spectate\":\"s\"},\
         \"assets\":{\"large_image\":\"big\",\"small_text\":\"tip\\n\"},\
         \"buttons\":[{\"label\":\"Go \\\"now\\\"\",\"url\":\"https://a.example\"},\
         {\"label\":\"Two\",\"url\":\"https://b.example\"}]}"
    );
}

#[test]
fn whole_objects_set_at_once() {
    let a = Activity::new()
        .ty(ActivityType::Listening)
        .party(ActivityParty::new("x", [1, 3]))
        .secrets(ActivitySecrets::new("a", "b", "c"))
        .assets(
            ActivityAssets::new()
                .large_image("L")
                .large_text("LT")
                .small_image("S")
                .small_text("ST"),
        )
        .instance(true);
    assert_eq!(
        json(&a),
        "{\"type\":2,\"party\":{\"id\":\"x\",\"size\":[1,3]},\
         \"secrets\":{\"join\":\"a\",\"spectate\":\"b\",\"match_id\":\"c\"},\
         \"assets\":{\"large_image\":\"L\",\"large_text\":\"LT\",\"small_image\":\"S\",\"small_text\":\"ST\"},\"instance\":true}"
    );
}

#[test]
fn empty_party_and_buttons() {
    let none: [ActivityButton; 0] = [];
    let a = Activity::new()
        .party(ActivityParty::default())
        .buttons(&none);
    assert_eq!(json(&a), "{\"type\":0,\"party\":{},\"buttons\":[]}");
}

#[test]
fn packet_json_with_and_without_activity() {
    let a = Activity::new().details("test");
    assert_eq!(
        Packet::new(42, Some(&a)).to_json().unwrap(),
        "{\"cmd\":\"SET_ACTIVITY\",\"nonce\":\"-\",\"args\":{\"pid\":42,\"activity\":{\"type\":0,\"details\":\"test\"}}}"
    );
    assert_eq!(
        Packet::new(7, None).to_json().unwrap(),
        "{\"cmd\":\"SET_ACTIVITY\",\"nonce\":\"-\",\"args\":{\"pid\":7}}"
    );
}

#[test]
fn structural_equality() {
    let b1 = [ActivityButton::new("a", "u")];
    let b2 = [ActivityButton::new("a", "u")];
    let b3 = [ActivityButton::new("a", "v")];
    let x = Activity::new().details("d").buttons(&b1).start_time(1);
    let y = Activity::new().details("d").buttons(&b2).start_time(1);
    let z = Activity::new().details("d").buttons(&b3).start_time(1);
    assert!(x == y);
    assert!(x != z);
    assert!(x != Activity::new().details("d").buttons(&b1).start_time(2));
    assert!(x != Activity::new().details("e").buttons(&b1).start_time(1));
    assert!(Activity::new().instance(true) != Activity::new().instance(false));
    assert!(Activity::new().party_size([1, 2]) != Activity::new().party_size([1, 3]));
}
