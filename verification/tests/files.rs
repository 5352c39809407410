use image_api::models::user::Account;
use image_api::object_id::ObjectId;
use image_api::reply::ContentType;
use image_api::routes::file::{
    apply_file_field, charge_view, empty_app_file, file_field_role, get_file_as_view_outcome,
    get_file_reply, post_new_file_reply, AppFile, FileFieldRole, NewFileField, ViewOutcome,
    ViewRequestBody,
};

fn a_file() -> AppFile {
    AppFile { name: "doc.pdf".into(), owner_id: ObjectId::from_bytes([3; 12]), data: vec![1, 2, 3] }
}

#[test]
fn field_roles_by_name() {
    assert_eq!(file_field_role(&"file".to_string()), FileFieldRole::Content);
    assert_eq!(file_field_role(&"owner_id".to_string()), FileFieldRole::Owner);
    assert_eq!(file_field_role(&"other".to_string()), FileFieldRole::Other);
    assert_eq!(file_field_role(&"File".to_string()), FileFieldRole::Other);
}

#[test]
fn building_a_new_file_from_fields() {
    let f = empty_app_file();
    assert_eq!(f.name, "");
    assert!(f.data.is_empty());
    let f = apply_file_field(f, NewFileField::Content { file_name: "a.pdf".into(), data: vec![9, 8] });
    assert_eq!(f.name, "a.pdf");
    assert_eq!(f.data, vec![9, 8]);
    let f = apply_file_field(f, NewFileField::Owner { text: "606e530d13fe601b17aefbe3".into() });
    assert_eq!(f.owner_id.bytes, ObjectId::parse_str("606e530d13fe601b17aefbe3").unwrap().bytes);
    assert_eq!(f.name, "a.pdf");
    let f = apply_file_field(f, NewFileField::Other);
    assert_eq!(f.data, vec![9, 8]);
    let r = post_new_file_reply();
    assert_eq!(r.status, 201);
    assert_eq!(String::from_utf8(r.body).unwrap(), "\"user successfully loaded\"");
}

#[test]
fn file_by_id_replies() {
    let r = get_file_reply(Some(a_file()));
    assert_eq!(r.status, 200);
    assert_eq!(r.content_type, ContentType::ApplicationPdf);
    assert_eq!(r.body, vec![1, 2, 3]);
    let r = get_file_reply(None);
    assert_eq!(r.status, 400);
    assert_eq!(String::from_utf8(r.body).unwrap(), "{\"message\":\"Request not processed correctly\"}");
}

#[test]
fn a_view_moves_one_unit() {
    let owner = Account { earnings: 10, bill: 4 };
    let viewer = Account { earnings: 0, bill: 7 };
    let (o, v) = charge_view(owner, viewer);
    assert_eq!(o, Account { earnings: 11, bill: 4 });
    assert_eq!(v, Account { earnings: 0, bill: 8 });
    let body = ViewRequestBody { file_id: "f".into(), owner_id: "o".into(), viewer_id: "v".into() };
    assert_eq!(body.viewer_id, "v");
}

#[test]
fn view_outcomes() {
    let owner = Account { earnings: 1, bill: 0 };
    let viewer = Account { earnings: 0, bill: 2 };
    match get_file_as_view_outcome(owner, viewer, Some(a_file())) {
        ViewOutcome::Charge { owner_earnings, viewer_bill, reply } => {
            assert_eq!(owner_earnings, 2);
            assert_eq!(viewer_bill, 3);
            assert_eq!(reply.body, vec![1, 2, 3]);
        }
        ViewOutcome::Reject { .. } => panic!("file was found"),
    }
    match get_file_as_view_outcome(owner, viewer, None) {
        ViewOutcome::Reject { reply } => assert_eq!(reply.status, 400),
        ViewOutcome::Charge { .. } => panic!("no file"),
    }
}
