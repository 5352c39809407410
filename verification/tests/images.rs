use image_api::object_id::ObjectId;
use image_api::reply::{ContentType, Reply};
use image_api::routes::image::{
    delete_image_reply, get_response_from_gridfs, gridfs_reply, image_by_name_outcome,
    is_file_field, post_image_start, post_image_step, profile_pic_start, profile_pic_step,
    upload_reply, PostImageAction, PostImageEvent, PostImageState, ProfilePicAction,
    ProfilePicEvent, ProfilePicStage, UploadOutcome, DEFAULT_PROFILE_PIC,
};

struct Stored {
    id: u32,
    name: String,
    bytes: Vec<u8>,
}

fn png_bytes() -> Vec<u8> {
    let img = image::RgbImage::new(2, 2);
    let mut out = std::io::Cursor::new(Vec::new());
    img.write_to(&mut out, image::ImageOutputFormat::Png).unwrap();
    out.into_inner()
}

fn post_image(store: &mut Vec<Stored>, fields: Vec<(&str, Option<&str>, Vec<u8>)>) -> Reply {
    let mut fields = fields.into_iter();
    let mut data = Vec::new();
    let (mut state, mut action) = post_image_start();
    loop {
        let event = match action {
            PostImageAction::NextField => match fields.next() {
                Some((name, file_name, bytes)) => {
                    data = bytes;
                    PostImageEvent::Field {
                        name: name.to_string(),
                        file_name: file_name.map(|f| f.to_string()),
                    }
                }
                None => PostImageEvent::NoMoreFields,
            },
            PostImageAction::LookUpName { file_name } => {
                PostImageEvent::NameLookup { taken: store.iter().any(|s| s.name == file_name) }
            }
            PostImageAction::ReadAndUpload { file_name } => {
                let id = store.iter().map(|s| s.id).max().unwrap_or(0) + 1;
                store.push(Stored { id, name: file_name, bytes: data.clone() });
                PostImageEvent::Uploaded
            }
            PostImageAction::Respond { outcome } => return upload_reply(outcome),
        };
        let (s, a) = post_image_step(state, event);
        state = s;
        action = a;
    }
}

fn get_by_id(store: &[Stored], id: u32) -> Reply {
    let download = store.iter().find(|s| s.id == id).map(|s| s.bytes.clone());
    get_response_from_gridfs(download).unwrap()
}

fn get_by_name(store: &[Stored], name: &str) -> Reply {
    let first = store.iter().find(|s| s.name == name).map(|s| s.id);
    match image_by_name_outcome(first) {
        Ok(id) => get_by_id(store, id),
        Err(reply) => reply,
    }
}

#[test]
fn test_post_get_delete_png() {
    let mut store: Vec<Stored> = Vec::new();
    let png = png_bytes();

    let post_first = post_image(&mut store, vec![("file", Some("test_img_1.png"), png.clone())]);
    assert_eq!(post_first.status, 200);

    let id = store.iter().find(|s| s.name == "test_img_1.png").unwrap().id;

    let get_exists = get_by_id(&store, id);
    assert_eq!(get_exists.status, 200);

    let post_repeat = post_image(&mut store, vec![("file", Some("test_img_1.png"), png.clone())]);
    assert_eq!(post_repeat.status, 400);
    assert_eq!(
        String::from_utf8(post_repeat.body).unwrap(),
        "{\"message\":\"image name is already taken. Please choose a unique name\"}"
    );

    let get_right = get_by_name(&store, "test_img_1.png");
    assert_eq!(get_right.status, 200);

    let get_wrong = get_by_name(&store, "wrong_name.png");
    assert_eq!(get_wrong.status, 400);

    store.retain(|s| s.id != id);
    let delete = delete_image_reply();
    assert_eq!(delete.status, 200);

    let download = store.iter().find(|s| s.id == id).map(|s| s.bytes.clone());
    let after_delete = get_response_from_gridfs(download).unwrap();
    assert_eq!(after_delete.status, 400);
}

#[test]
fn post_image_rejects_other_fields_and_stores_nothing() {
    let mut store: Vec<Stored> = Vec::new();
    let r = post_image(&mut store, vec![("picture", Some("a.png"), vec![1])]);
    assert_eq!(r.status, 400);
    assert_eq!(
        String::from_utf8(r.body).unwrap(),
        "{\"message\":\"multipart form data requires field name: file with key as the loaded file\"}"
    );
    assert!(store.is_empty());
}

#[test]
fn post_image_stores_each_file_field_until_a_taken_name() {
    let mut store: Vec<Stored> = Vec::new();
    let r = post_image(
        &mut store,
        vec![("file", Some("a.png"), vec![1]), ("file", Some("b.png"), vec![2])],
    );
    assert_eq!(r.status, 200);
    assert_eq!(store.len(), 2);
    let r = post_image(
        &mut store,
        vec![("file", Some("c.png"), vec![3]), ("file", Some("a.png"), vec![4])],
    );
    assert_eq!(r.status, 400);
    assert_eq!(store.len(), 3);
    assert_eq!(store.iter().filter(|s| s.name == "a.png").count(), 1);
    let empty = post_image(&mut store, vec![]);
    assert_eq!(empty.status, 200);
    assert_eq!(
        String::from_utf8(empty.body).unwrap(),
        "{\"message\":\"Image successfully loaded\"}"
    );
}

#[test]
fn post_image_single_steps() {
    let (s, a) = post_image_step(
        PostImageState::ExpectField,
        PostImageEvent::Field { name: "file".into(), file_name: Some("x.png".into()) },
    );
    assert!(matches!(s, PostImageState::CheckingName { ref file_name } if file_name == "x.png"));
    assert!(matches!(a, PostImageAction::LookUpName { ref file_name } if file_name == "x.png"));
    let (s, a) = post_image_step(s, PostImageEvent::NameLookup { taken: true });
    assert!(matches!(s, PostImageState::Finished));
    assert!(matches!(a, PostImageAction::Respond { outcome: UploadOutcome::NameTaken }));
    assert!(is_file_field(&"file".to_string()));
    assert!(!is_file_field(&"files".to_string()));
}

#[test]
fn profile_picture_is_stored_under_the_user_id() {
    let user = "606e530d13fe601b17aefbe3".to_string();
    let (state, action) = profile_pic_start(user.clone());
    let expected = ObjectId::parse_str(&user).unwrap();
    assert!(matches!(action, ProfilePicAction::DeleteImage { id } if id.bytes == expected.bytes));
    let (state, action) = profile_pic_step(state, ProfilePicEvent::OldImageHandled);
    assert!(matches!(action, ProfilePicAction::NextField));
    let (state, action) = profile_pic_step(
        state,
        ProfilePicEvent::Field { name: "file".into(), file_name: Some("me.png".into()) },
    );
    assert!(matches!(action, ProfilePicAction::ReadAndUpload { ref file_name } if *file_name == user));
    let (state, action) = profile_pic_step(state, ProfilePicEvent::Uploaded);
    match action {
        ProfilePicAction::SetProfilePic { user: u, url } => {
            assert_eq!(u.bytes, expected.bytes);
            assert_eq!(url, user);
        }
        _ => panic!("expected the user record to be updated"),
    }
    let (state, action) = profile_pic_step(state, ProfilePicEvent::UserUpdated);
    assert!(matches!(action, ProfilePicAction::NextField));
    let (state, action) = profile_pic_step(state, ProfilePicEvent::NoMoreFields);
    assert_eq!(state.stage, ProfilePicStage::Finished);
    match action {
        ProfilePicAction::Respond { outcome } => assert_eq!(upload_reply(outcome).status, 200),
        _ => panic!("expected a reply"),
    }
}

#[test]
fn profile_picture_rejects_other_fields() {
    let (state, _) = profile_pic_start("606e530d13fe601b17aefbe3".to_string());
    let (state, _) = profile_pic_step(state, ProfilePicEvent::OldImageHandled);
    let (state, action) = profile_pic_step(
        state,
        ProfilePicEvent::Field { name: "avatar".into(), file_name: None },
    );
    assert_eq!(state.stage, ProfilePicStage::Finished);
    assert!(matches!(action, ProfilePicAction::Respond { outcome: UploadOutcome::NotAFileField }));
    assert_eq!(DEFAULT_PROFILE_PIC, "default_profile.png");
}

#[test]
fn gridfs_replies() {
    let png = png_bytes();
    let r = get_response_from_gridfs(Some(png.clone())).unwrap();
    assert_eq!(r.status, 200);
    assert_eq!(r.content_type, ContentType::ImagePng);
    assert_eq!(r.body, png);
    assert!(get_response_from_gridfs(Some(vec![1, 2, 3])).is_none());
    let missing = get_response_from_gridfs(None).unwrap();
    assert_eq!(missing.status, 400);
    assert_eq!(String::from_utf8(missing.body).unwrap(), "{\"message\":\"Image id not found\"}");
    assert_eq!(gridfs_reply(Some(png.clone())).body, png);
    assert_eq!(gridfs_reply(None).status, 400);
}

#[test]
fn name_lookup_and_delete_replies() {
    assert_eq!(image_by_name_outcome(Some(7u32)).ok(), Some(7));
    let err = image_by_name_outcome::<u32>(None).unwrap_err();
    assert_eq!(err.status, 400);
    assert_eq!(String::from_utf8(err.body).unwrap(), "{\"message\":\"Image not found with this name\"}");
    let d = delete_image_reply();
    assert_eq!(d.status, 200);
    assert_eq!(d.content_type, ContentType::ImagePng);
    assert_eq!(String::from_utf8(d.body).unwrap(), "{\"message\":\"Image successfully deleted\"}");
}
