use cobweb::rpc::{Info, InfoServer, NodeType, Status};

#[test]
fn new_info_requests() {
    let info = Info::new(NodeType::Source, String::from("abc"));
    assert_eq!(info.uuid, "abc");
    assert!(info.node_type == NodeType::Source);
    assert!(info.status == Status::Req);
}

#[test]
fn eval_accepts_with_own_identifier() {
    let asked = Info::new(NodeType::Source, String::from("theirs"));
    let answer = Info::eval(asked, NodeType::Link, String::from("mine"));
    assert_eq!(answer.uuid, "mine");
    assert!(answer.node_type == NodeType::Link);
    assert!(answer.status == Status::Acc);
}

#[test]
fn server_answers_as_accepting_link() {
    let asked = Info::new(NodeType::Source, String::from("theirs"));
    let answer = InfoServer.info(asked, String::from("0123"));
    assert_eq!(answer.uuid, "0123");
    assert!(answer.node_type == NodeType::Link);
    assert!(answer.status == Status::Acc);
}

#[test]
fn display_forms() {
    assert_eq!(NodeType::Source.fmt_display(), "source");
    assert_eq!(NodeType::Link.fmt_display(), "link");
    assert_eq!(Status::Req.fmt_display(), "REQUESTING");
    assert_eq!(Status::Acc.fmt_display(), "ACCEPTING");
    assert_eq!(Status::Rej.fmt_display(), "REJECTING");
    let info = Info { uuid: String::from("u1"), node_type: NodeType::Link, status: Status::Rej };
    assert_eq!(info.fmt_display(), "u1\ntype=link\nstats=REJECTING");
}

#[test]
fn debug_forms() {
    assert_eq!(NodeType::Source.fmt_debug(), "NodeType::Source");
    assert_eq!(NodeType::Link.fmt_debug(), "NodeType::Link");
    assert_eq!(Status::Req.fmt_debug(), "Status::Req");
    assert_eq!(Status::Acc.fmt_debug(), "Status::Acc");
    assert_eq!(Status::Rej.fmt_debug(), "Status::Rej");
    let info = Info { uuid: String::from("u1"), node_type: NodeType::Source, status: Status::Req };
    assert_eq!(info.fmt_debug(), "Info {\n uuid: u1\n node_type=source\n status=REQUESTING\n}");
}

#[test]
fn stored_identifier_is_kept() {
    let (id, store) = Info::choose_uuid(Some(String::from("stored-id\n")));
    assert_eq!(id, "stored-id\n");
    assert_eq!(store, None);
}

#[test]
fn fresh_identifier_is_random_v4_and_stored() {
    let (id, store) = Info::choose_uuid(None);
    assert_eq!(store, Some(id.clone()));
    assert_eq!(id.len(), 32);
    assert!(id.chars().all(|c| c.is_ascii_digit() || ('a'..='f').contains(&c)));
    let parsed = uuid::Uuid::parse_str(&id).unwrap();
    assert_eq!(parsed.get_version_num(), 4);
    assert_eq!(parsed.simple().to_string(), id);
    let (other, _) = Info::choose_uuid(None);
    assert_ne!(id, other);
}

#[test]
fn identifier_text_is_simple_form() {
    let bytes = [0x67, 0xe5, 0x50, 0x44, 0x10, 0xb1, 0x42, 0x6f, 0x92, 0x47, 0xbb, 0x68, 0x0e, 0x5f, 0xe0, 0xc8];
    assert_eq!(Info::uuid_text(&bytes), "67e5504410b1426f9247bb680e5fe0c8");
    assert_eq!(Info::uuid_text(&bytes), uuid::Uuid::from_bytes(bytes).simple().to_string());
}
