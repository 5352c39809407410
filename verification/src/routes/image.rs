//! Image routes: uploading an image under a free name, replacing a user's
//! profile picture, and fetching or deleting stored images.

use vstd::prelude::*;
use crate::object_id::{spec_parse_object_id, ObjectId};
use crate::reply::{
    error_fmt, is_error_reply, is_message_reply, message_reply, ContentType, Reply,
    STATUS_BAD_REQUEST, STATUS_OK,
};

verus! {

/// The name of the multipart field that carries the image.
pub open spec fn file_field_name() -> Seq<char> {
    "file"@
}

/// The picture a user has once their own is removed.
pub const DEFAULT_PROFILE_PIC: &'static str = "default_profile.png";

/// How an upload request ends.
#[derive(Clone, Copy, Debug, PartialEq, Eq, Structural)]
pub enum UploadOutcome {
    /// Every field was handled.
    Loaded,
    /// The image name is used by a stored image already.
    NameTaken,
    /// A field other than `file` was sent.
    NotAFileField,
}

/// The reply that ends an upload request.
pub open spec fn is_upload_reply(r: Reply, outcome: UploadOutcome) -> bool {
    match outcome {
        UploadOutcome::Loaded => is_message_reply(r, STATUS_OK, "Image successfully loaded"@),
        UploadOutcome::NameTaken => is_error_reply(
            r,
            STATUS_BAD_REQUEST,
            "image name is already taken. Please choose a unique name"@,
        ),
        UploadOutcome::NotAFileField => is_error_reply(
            r,
            STATUS_BAD_REQUEST,
            "multipart form data requires field name: file with key as the loaded file"@,
        ),
    }
}

/// The reply that ends an upload request.
pub fn upload_reply(outcome: UploadOutcome) -> (r: Reply)
    ensures
        is_upload_reply(r, outcome),
{
    match outcome {
        UploadOutcome::Loaded => message_reply(STATUS_OK, "Image successfully loaded"),
        UploadOutcome::NameTaken => error_fmt(
            STATUS_BAD_REQUEST,
            "image name is already taken. Please choose a unique name",
        ),
        UploadOutcome::NotAFileField => error_fmt(
            STATUS_BAD_REQUEST,
            "multipart form data requires field name: file with key as the loaded file",
        ),
    }
}

/// Whether a multipart field is the `file` field.
pub fn is_file_field(name: &String) -> (r: bool)
    ensures
        r == (name@ == file_field_name()),
{
    let file = String::from_str("file");
    *name == file
}

// ---------------------------------------------------------------------------
// Uploading an image: each `file` field is stored under its file name, unless
// an image of that name is stored already.
/// Where an image upload stands.
#[derive(Debug)]
pub enum PostImageState {
    /// Waiting for the next multipart field.
    ExpectField,
    /// Asked whether an image named `file_name` is stored.
    CheckingName { file_name: String },
    /// Storing the field's bytes under `file_name`.
    Uploading { file_name: String },
    /// The reply has been chosen.
    Finished,
}

/// What the outside world reports to an image upload.
#[derive(Debug)]
pub enum PostImageEvent {
    /// The next multipart field, with its name and the file name it declares.
    Field { name: String, file_name: Option<String> },
    /// There are no more fields.
    NoMoreFields,
    /// Whether an image of the asked name is stored.
    NameLookup { taken: bool },
    /// The field's bytes are stored.
    Uploaded,
}

/// What an image upload asks of the outside world next.
#[derive(Debug)]
pub enum PostImageAction {
    /// Read the next multipart field.
    NextField,
    /// Look for a stored image named `file_name`.
    LookUpName { file_name: String },
    /// Read the field's bytes and store them under `file_name`.
    ReadAndUpload { file_name: String },
    /// End the request with the reply for `outcome`.
    Respond { outcome: UploadOutcome },
}

/// The events each state can take. A `file` field must declare a file name
/// (the request is not answered otherwise), and a finished upload takes none.
pub open spec fn post_image_accepts(state: PostImageState, event: PostImageEvent) -> bool {
    match state {
        PostImageState::ExpectField => match event {
            PostImageEvent::Field { name, file_name } => name@ == file_field_name()
                ==> file_name is Some,
            PostImageEvent::NoMoreFields => true,
            _ => false,
        },
        PostImageState::CheckingName { .. } => event is NameLookup,
        PostImageState::Uploading { .. } => event is Uploaded,
        PostImageState::Finished => false,
    }
}

/// The next state and action of an image upload.
pub open spec fn post_image_next(state: PostImageState, event: PostImageEvent) -> (
    PostImageState,
    PostImageAction,
) {
    match (state, event) {
        (PostImageState::ExpectField, PostImageEvent::Field { name, file_name }) => {
            if name@ == file_field_name() {
                (
                    PostImageState::CheckingName { file_name: file_name.unwrap() },
                    PostImageAction::LookUpName { file_name: file_name.unwrap() },
                )
            } else {
                (
                    PostImageState::Finished,
                    PostImageAction::Respond { outcome: UploadOutcome::NotAFileField },
                )
            }
        },
        (PostImageState::ExpectField, PostImageEvent::NoMoreFields) => (
            PostImageState::Finished,
            PostImageAction::Respond { outcome: UploadOutcome::Loaded },
        ),
        (PostImageState::CheckingName { file_name }, PostImageEvent::NameLookup { taken }) => {
            if taken {
                (
                    PostImageState::Finished,
                    PostImageAction::Respond { outcome: UploadOutcome::NameTaken },
                )
            } else {
                (
                    PostImageState::Uploading { file_name },
                    PostImageAction::ReadAndUpload { file_name },
                )
            }
        },
        (PostImageState::Uploading { .. }, PostImageEvent::Uploaded) => (
            PostImageState::ExpectField,
            PostImageAction::NextField,
        ),
        _ => (PostImageState::Finished, PostImageAction::Respond { outcome: UploadOutcome::Loaded }),
    }
}

/// The events that answer an action: a field (which, being `file`, declares a
/// file name) or the end of the fields for `NextField`, the lookup's result
/// for `LookUpName`, the end of the upload for `ReadAndUpload`; a reply is
/// answered by nothing.
pub open spec fn post_image_answers(action: PostImageAction, event: PostImageEvent) -> bool {
    match action {
        PostImageAction::NextField => match event {
            PostImageEvent::Field { name, file_name } => name@ == file_field_name()
                ==> file_name is Some,
            PostImageEvent::NoMoreFields => true,
            _ => false,
        },
        PostImageAction::LookUpName { .. } => event is NameLookup,
        PostImageAction::ReadAndUpload { .. } => event is Uploaded,
        PostImageAction::Respond { .. } => false,
    }
}

/// The upload waits for exactly the events that answer the action it asked for.
pub open spec fn post_image_awaits(state: PostImageState, action: PostImageAction) -> bool {
    forall|e: PostImageEvent| #[trigger] post_image_answers(action, e) <==> post_image_accepts(state, e)
}

/// The first state and action of an image upload.
pub fn post_image_start() -> (r: (PostImageState, PostImageAction))
    ensures
        r.0 is ExpectField,
        r.1 is NextField,
        post_image_awaits(r.0, r.1),
{
    (PostImageState::ExpectField, PostImageAction::NextField)
}

/// One step of an image upload.
pub fn post_image_step(state: PostImageState, event: PostImageEvent) -> (r: (
    PostImageState,
    PostImageAction,
))
    requires
        post_image_accepts(state, event),
    ensures
        r == post_image_next(state, event),
        post_image_awaits(r.0, r.1),
{
    match state {
        PostImageState::ExpectField => match event {
            PostImageEvent::Field { name, file_name } => {
                if is_file_field(&name) {
                    let file_name = file_name.unwrap();
                    let asked = file_name.clone();
                    (
                        PostImageState::CheckingName { file_name },
                        PostImageAction::LookUpName { file_name: asked },
                    )
                } else {
                    (
                        PostImageState::Finished,
                        PostImageAction::Respond { outcome: UploadOutcome::NotAFileField },
                    )
                }
            },
            _ => (
                PostImageState::Finished,
                PostImageAction::Respond { outcome: UploadOutcome::Loaded },
            ),
        },
        PostImageState::CheckingName { file_name } => match event {
            PostImageEvent::NameLookup { taken } => {
                if taken {
                    (
                        PostImageState::Finished,
                        PostImageAction::Respond { outcome: UploadOutcome::NameTaken },
                    )
                } else {
                    let target = file_name.clone();
                    (
                        PostImageState::Uploading { file_name },
                        PostImageAction::ReadAndUpload { file_name: target },
                    )
                }
            },
            _ => (
                PostImageState::Finished,
                PostImageAction::Respond { outcome: UploadOutcome::Loaded },
            ),
        },
        _ => (PostImageState::ExpectField, PostImageAction::NextField),
    }
}

/// An image is stored only under a name that was just looked up and found
/// free, and a name found taken ends the upload with the "already taken" reply.
pub proof fn lemma_post_image_never_overwrites(state: PostImageState, event: PostImageEvent)
    requires
        post_image_accepts(state, event),
    ensures
        post_image_next(state, event).1 matches PostImageAction::ReadAndUpload { file_name } ==> {
            &&& state == (PostImageState::CheckingName { file_name })
            &&& event == (PostImageEvent::NameLookup { taken: false })
        },
        event == (PostImageEvent::NameLookup { taken: true }) ==> post_image_next(state, event)
            == (PostImageState::Finished, PostImageAction::Respond { outcome: UploadOutcome::NameTaken }),
{
}

/// An upload ends exactly when a reply is chosen, and once ended it takes no
/// further event; a field other than `file` ends it with the "field name" reply.
pub proof fn lemma_post_image_replies_once(state: PostImageState, event: PostImageEvent)
    requires
        post_image_accepts(state, event),
    ensures
        (post_image_next(state, event).1 is Respond) <==> (post_image_next(state, event).0 is Finished),
        forall|e: PostImageEvent| !post_image_accepts(PostImageState::Finished, e),
        state is ExpectField ==> (event matches PostImageEvent::Field { name, .. } ==> (name@
            != file_field_name() ==> post_image_next(state, event).1
            == (PostImageAction::Respond { outcome: UploadOutcome::NotAFileField }))),
{
}

/// Stored image names stay distinct: where the names in the store are
/// distinct and each name lookup is answered from the store, an upload adds a
/// name the store does not hold, so the names remain distinct.
pub proof fn lemma_post_image_keeps_names_unique(
    stored: Seq<Seq<char>>,
    state: PostImageState,
    event: PostImageEvent,
)
    requires
        stored.no_duplicates(),
        post_image_accepts(state, event),
        state matches PostImageState::CheckingName { file_name } ==> event == (
        PostImageEvent::NameLookup { taken: stored.contains(file_name@) }),
    ensures
        post_image_next(state, event).1 matches PostImageAction::ReadAndUpload { file_name } ==> {
            &&& !stored.contains(file_name@)
            &&& stored.push(file_name@).no_duplicates()
        },
{
    if let PostImageAction::ReadAndUpload { file_name } = post_image_next(state, event).1 {
        let s = stored.push(file_name@);
        assert forall|i: int, j: int| 0 <= i < s.len() && 0 <= j < s.len() && i != j implies s[i]
            != s[j] by {
            if i < stored.len() && j < stored.len() {
                assert(s[i] == stored[i] && s[j] == stored[j]);
            } else if i == stored.len() {
                assert(s[j] == stored[j]);
            } else {
                assert(s[i] == stored[i]);
            }
        }
    }
}

/// A multipart field as it may reach an upload: a field which, being `file`,
/// declares a file name.
pub open spec fn is_upload_field(e: PostImageEvent) -> bool {
    match e {
        PostImageEvent::Field { name, file_name } => name@ == file_field_name() ==> file_name is Some,
        _ => false,
    }
}

/// The names in the image store after an upload request runs from `state` and
/// `action` for at most `steps` steps: fields arrive from `fields`, each name
/// lookup is answered from the store, and each upload adds its name to it.
pub open spec fn post_image_run(
    state: PostImageState,
    action: PostImageAction,
    store: Seq<Seq<char>>,
    fields: Seq<PostImageEvent>,
    steps: nat,
) -> Seq<Seq<char>>
    decreases steps,
{
    if steps == 0 {
        store
    } else {
        match action {
            PostImageAction::NextField => if fields.len() == 0 {
                let (s, a) = post_image_next(state, PostImageEvent::NoMoreFields);
                post_image_run(s, a, store, fields, (steps - 1) as nat)
            } else {
                let (s, a) = post_image_next(state, fields[0]);
                post_image_run(s, a, store, fields.drop_first(), (steps - 1) as nat)
            },
            PostImageAction::LookUpName { file_name } => {
                let (s, a) = post_image_next(
                    state,
                    PostImageEvent::NameLookup { taken: store.contains(file_name@) },
                );
                post_image_run(s, a, store, fields, (steps - 1) as nat)
            },
            PostImageAction::ReadAndUpload { file_name } => {
                let (s, a) = post_image_next(state, PostImageEvent::Uploaded);
                post_image_run(s, a, store.push(file_name@), fields, (steps - 1) as nat)
            },
            PostImageAction::Respond { .. } => store,
        }
    }
}

/// What holds at every point of an upload run: the store's names are distinct,
/// the upload waits for the answer to its action, a lookup is about the name
/// being checked, and a name about to be stored is not in the store.
pub open spec fn post_image_run_inv(
    state: PostImageState,
    action: PostImageAction,
    store: Seq<Seq<char>>,
) -> bool {
    &&& store.no_duplicates()
    &&& post_image_awaits(state, action)
    &&& action matches PostImageAction::LookUpName { file_name } ==> state == (
    PostImageState::CheckingName { file_name })
    &&& action matches PostImageAction::ReadAndUpload { file_name } ==> !store.contains(file_name@)
}

proof fn lemma_post_image_next_awaits(state: PostImageState, event: PostImageEvent)
    requires
        post_image_accepts(state, event),
    ensures
        post_image_awaits(post_image_next(state, event).0, post_image_next(state, event).1),
        post_image_next(state, event).1 matches PostImageAction::LookUpName { file_name }
            ==> post_image_next(state, event).0 == (PostImageState::CheckingName { file_name }),
{
}

proof fn lemma_push_fresh_no_duplicates(store: Seq<Seq<char>>, name: Seq<char>)
    requires
        store.no_duplicates(),
        !store.contains(name),
    ensures
        store.push(name).no_duplicates(),
{
    let s = store.push(name);
    assert forall|i: int, j: int| 0 <= i < s.len() && 0 <= j < s.len() && i != j implies s[i]
        != s[j] by {
        if i < store.len() && j < store.len() {
            assert(s[i] == store[i] && s[j] == store[j]);
        } else if i == store.len() {
            assert(s[j] == store[j]);
        } else {
            assert(s[i] == store[i]);
        }
    }
}

proof fn lemma_post_image_run_keeps_inv(
    state: PostImageState,
    action: PostImageAction,
    store: Seq<Seq<char>>,
    fields: Seq<PostImageEvent>,
    steps: nat,
)
    requires
        post_image_run_inv(state, action, store),
        forall|i: int| 0 <= i < fields.len() ==> is_upload_field(#[trigger] fields[i]),
    ensures
        post_image_run(state, action, store, fields, steps).no_duplicates(),
    decreases steps,
{
    if steps > 0 {
        match action {
            PostImageAction::NextField => {
                if fields.len() == 0 {
                    let e = PostImageEvent::NoMoreFields;
                    assert(post_image_answers(action, e));
                    lemma_post_image_next_awaits(state, e);
                    let (s, a) = post_image_next(state, e);
                    lemma_post_image_run_keeps_inv(s, a, store, fields, (steps - 1) as nat);
                } else {
                    let e = fields[0];
                    assert(is_upload_field(e));
                    assert(post_image_answers(action, e));
                    lemma_post_image_next_awaits(state, e);
                    let (s, a) = post_image_next(state, e);
                    let rest = fields.drop_first();
                    assert forall|i: int| 0 <= i < rest.len() implies is_upload_field(
                        #[trigger] rest[i],
                    ) by {
                        assert(rest[i] == fields[i + 1]);
                    }
                    lemma_post_image_run_keeps_inv(s, a, store, rest, (steps - 1) as nat);
                }
            },
            PostImageAction::LookUpName { file_name } => {
                let e = PostImageEvent::NameLookup { taken: store.contains(file_name@) };
                assert(post_image_answers(action, e));
                lemma_post_image_next_awaits(state, e);
                lemma_post_image_keeps_names_unique(store, state, e);
                let (s, a) = post_image_next(state, e);
                lemma_post_image_run_keeps_inv(s, a, store, fields, (steps - 1) as nat);
            },
            PostImageAction::ReadAndUpload { file_name } => {
                let e = PostImageEvent::Uploaded;
                assert(post_image_answers(action, e));
                lemma_post_image_next_awaits(state, e);
                lemma_push_fresh_no_duplicates(store, file_name@);
                let (s, a) = post_image_next(state, e);
                lemma_post_image_run_keeps_inv(s, a, store.push(file_name@), fields, (steps - 1) as nat);
            },
            PostImageAction::Respond { .. } => {},
        }
    }
}

/// Image names stay unique over whole upload requests: where the store's
/// names are distinct and lookups are answered from the store, the store's
/// names are still distinct after any number of steps of an upload request,
/// whatever fields it sends.
pub proof fn lemma_post_image_request_keeps_names_unique(
    store: Seq<Seq<char>>,
    fields: Seq<PostImageEvent>,
    steps: nat,
)
    requires
        store.no_duplicates(),
        forall|i: int| 0 <= i < fields.len() ==> is_upload_field(#[trigger] fields[i]),
    ensures
        post_image_run(PostImageState::ExpectField, PostImageAction::NextField, store, fields, steps)
            .no_duplicates(),
{
    assert(post_image_awaits(PostImageState::ExpectField, PostImageAction::NextField));
    lemma_post_image_run_keeps_inv(
        PostImageState::ExpectField,
        PostImageAction::NextField,
        store,
        fields,
        steps,
    );
}

// ---------------------------------------------------------------------------
// Replacing a user's profile picture: the stored file takes the user's id as
// its name, and the user's record is pointed at that name.
/// The steps of a profile picture update.
#[derive(Clone, Copy, Debug, PartialEq, Eq, Structural)]
pub enum ProfilePicStage {
    /// Deleting the image stored under the user's id.
    DeletingOld,
    /// Waiting for the next multipart field.
    ExpectField,
    /// Storing the field's bytes.
    Uploading,
    /// Pointing the user's record at the stored image.
    UpdatingUser,
    /// The reply has been chosen.
    Finished,
}

/// Where a profile picture update stands: whose picture, and which step.
#[derive(Debug)]
pub struct ProfilePicState {
    pub user_id: String,
    pub object_id: ObjectId,
    pub stage: ProfilePicStage,
}

/// What the outside world reports to a profile picture update.
#[derive(Debug)]
pub enum ProfilePicEvent {
    /// The old image was deleted, or there was none to delete.
    OldImageHandled,
    /// The next multipart field, with its name and the file name it declares.
    Field { name: String, file_name: Option<String> },
    /// There are no more fields.
    NoMoreFields,
    /// The field's bytes are stored.
    Uploaded,
    /// The user's record is updated.
    UserUpdated,
}

/// What a profile picture update asks of the outside world next.
#[derive(Debug)]
pub enum ProfilePicAction {
    /// Delete the stored image with this id; its outcome is not looked at.
    DeleteImage { id: ObjectId },
    /// Read the next multipart field.
    NextField,
    /// Read the field's bytes and store them under `file_name`.
    ReadAndUpload { file_name: String },
    /// Set the profile picture of the user with this id to `url`.
    SetProfilePic { user: ObjectId, url: String },
    /// End the request with the reply for `outcome`.
    Respond { outcome: UploadOutcome },
}

/// The events each step takes.
pub open spec fn profile_pic_accepts(state: ProfilePicState, event: ProfilePicEvent) -> bool {
    match state.stage {
        ProfilePicStage::DeletingOld => event is OldImageHandled,
        ProfilePicStage::ExpectField => match event {
            ProfilePicEvent::Field { name, file_name } => name@ == file_field_name()
                ==> file_name is Some,
            ProfilePicEvent::NoMoreFields => true,
            _ => false,
        },
        ProfilePicStage::Uploading => event is Uploaded,
        ProfilePicStage::UpdatingUser => event is UserUpdated,
        ProfilePicStage::Finished => false,
    }
}

/// The same update at another step.
pub open spec fn profile_pic_at(state: ProfilePicState, stage: ProfilePicStage) -> ProfilePicState {
    ProfilePicState { user_id: state.user_id, object_id: state.object_id, stage }
}

/// The next state and action of a profile picture update.
pub open spec fn profile_pic_next(state: ProfilePicState, event: ProfilePicEvent) -> (
    ProfilePicState,
    ProfilePicAction,
) {
    match (state.stage, event) {
        (ProfilePicStage::DeletingOld, ProfilePicEvent::OldImageHandled) => (
            profile_pic_at(state, ProfilePicStage::ExpectField),
            ProfilePicAction::NextField,
        ),
        (ProfilePicStage::ExpectField, ProfilePicEvent::Field { name, .. }) => {
            if name@ == file_field_name() {
                (
                    profile_pic_at(state, ProfilePicStage::Uploading),
                    ProfilePicAction::ReadAndUpload { file_name: state.user_id },
                )
            } else {
                (
                    profile_pic_at(state, ProfilePicStage::Finished),
                    ProfilePicAction::Respond { outcome: UploadOutcome::NotAFileField },
                )
            }
        },
        (ProfilePicStage::ExpectField, ProfilePicEvent::NoMoreFields) => (
            profile_pic_at(state, ProfilePicStage::Finished),
            ProfilePicAction::Respond { outcome: UploadOutcome::Loaded },
        ),
        (ProfilePicStage::Uploading, ProfilePicEvent::Uploaded) => (
            profile_pic_at(state, ProfilePicStage::UpdatingUser),
            ProfilePicAction::SetProfilePic { user: state.object_id, url: state.user_id },
        ),
        (ProfilePicStage::UpdatingUser, ProfilePicEvent::UserUpdated) => (
            profile_pic_at(state, ProfilePicStage::ExpectField),
            ProfilePicAction::NextField,
        ),
        _ => (
            profile_pic_at(state, ProfilePicStage::Finished),
            ProfilePicAction::Respond { outcome: UploadOutcome::Loaded },
        ),
    }
}

/// The events that answer an action: the deletion's end for `DeleteImage`, a
/// field (which, being `file`, declares a file name) or the end of the fields
/// for `NextField`, the end of the upload for `ReadAndUpload`, the end of the
/// record update for `SetProfilePic`; a reply is answered by nothing.
pub open spec fn profile_pic_answers(action: ProfilePicAction, event: ProfilePicEvent) -> bool {
    match action {
        ProfilePicAction::DeleteImage { .. } => event is OldImageHandled,
        ProfilePicAction::NextField => match event {
            ProfilePicEvent::Field { name, file_name } => name@ == file_field_name()
                ==> file_name is Some,
            ProfilePicEvent::NoMoreFields => true,
            _ => false,
        },
        ProfilePicAction::ReadAndUpload { .. } => event is Uploaded,
        ProfilePicAction::SetProfilePic { .. } => event is UserUpdated,
        ProfilePicAction::Respond { .. } => false,
    }
}

/// The update waits for exactly the events that answer the action it asked for.
pub open spec fn profile_pic_awaits(state: ProfilePicState, action: ProfilePicAction) -> bool {
    forall|e: ProfilePicEvent| #[trigger] profile_pic_answers(action, e) <==> profile_pic_accepts(state, e)
}

/// The first state and action of a profile picture update for the user whose
/// id is the text `user_id`: delete the image stored under that id.
pub fn profile_pic_start(user_id: String) -> (r: (ProfilePicState, ProfilePicAction))
    requires
        spec_parse_object_id(user_id@) is Some,
    ensures
        r.0.user_id == user_id,
        Some(r.0.object_id@) == spec_parse_object_id(user_id@),
        r.0.stage == ProfilePicStage::DeletingOld,
        r.1 == (ProfilePicAction::DeleteImage { id: r.0.object_id }),
        profile_pic_awaits(r.0, r.1),
{
    let object_id = ObjectId::parse_str(user_id.as_str()).unwrap();
    (
        ProfilePicState { user_id, object_id, stage: ProfilePicStage::DeletingOld },
        ProfilePicAction::DeleteImage { id: object_id },
    )
}

/// One step of a profile picture update.
pub fn profile_pic_step(state: ProfilePicState, event: ProfilePicEvent) -> (r: (
    ProfilePicState,
    ProfilePicAction,
))
    requires
        profile_pic_accepts(state, event),
    ensures
        r == profile_pic_next(state, event),
        profile_pic_awaits(r.0, r.1),
{
    let ProfilePicState { user_id, object_id, stage } = state;
    match stage {
        ProfilePicStage::DeletingOld => (
            ProfilePicState { user_id, object_id, stage: ProfilePicStage::ExpectField },
            ProfilePicAction::NextField,
        ),
        ProfilePicStage::ExpectField => match event {
            ProfilePicEvent::Field { name, .. } => {
                if is_file_field(&name) {
                    let file_name = user_id.clone();
                    (
                        ProfilePicState { user_id, object_id, stage: ProfilePicStage::Uploading },
                        ProfilePicAction::ReadAndUpload { file_name },
                    )
                } else {
                    (
                        ProfilePicState { user_id, object_id, stage: ProfilePicStage::Finished },
                        ProfilePicAction::Respond { outcome: UploadOutcome::NotAFileField },
                    )
                }
            },
            _ => (
                ProfilePicState { user_id, object_id, stage: ProfilePicStage::Finished },
                ProfilePicAction::Respond { outcome: UploadOutcome::Loaded },
            ),
        },
        ProfilePicStage::Uploading => {
            let url = user_id.clone();
            (
                ProfilePicState { user_id, object_id, stage: ProfilePicStage::UpdatingUser },
                ProfilePicAction::SetProfilePic { user: object_id, url },
            )
        },
        _ => (
            ProfilePicState { user_id, object_id, stage: ProfilePicStage::ExpectField },
            ProfilePicAction::NextField,
        ),
    }
}

/// Whatever the client calls its file, the picture is stored under the user's
/// id, and the user's record is pointed at that same name, for that user.
pub proof fn lemma_profile_pic_named_after_user(state: ProfilePicState, event: ProfilePicEvent)
    requires
        profile_pic_accepts(state, event),
    ensures
        profile_pic_next(state, event).1 matches ProfilePicAction::ReadAndUpload { file_name }
            ==> file_name == state.user_id,
        profile_pic_next(state, event).1 matches ProfilePicAction::SetProfilePic { user, url }
            ==> url == state.user_id && user == state.object_id,
        profile_pic_next(state, event).0.user_id == state.user_id,
        profile_pic_next(state, event).0.object_id == state.object_id,
{
}

/// While a profile picture update waits for a field, a field named `file`
/// starts storing the picture under the user's id, and a field of any other
/// name ends the update with the "field name" reply and stores nothing,
/// whatever file name either declares.
pub proof fn lemma_profile_pic_file_field_only(state: ProfilePicState, event: ProfilePicEvent)
    requires
        profile_pic_accepts(state, event),
        state.stage == ProfilePicStage::ExpectField,
    ensures
        event matches ProfilePicEvent::Field { name, .. } ==> {
            &&& name@ == "file"@ ==> {
                &&& profile_pic_next(state, event).0.stage == ProfilePicStage::Uploading
                &&& profile_pic_next(state, event).1 == (ProfilePicAction::ReadAndUpload {
                    file_name: state.user_id,
                })
            }
            &&& name@ != "file"@ ==> {
                &&& profile_pic_next(state, event).0.stage == ProfilePicStage::Finished
                &&& profile_pic_next(state, event).1 == (ProfilePicAction::Respond {
                    outcome: UploadOutcome::NotAFileField,
                })
            }
        },
{
}

// ---------------------------------------------------------------------------
// Fetching and deleting stored images.
/// The id of the first stored image of the asked name, or the reply
/// "Image not found with this name".
pub fn image_by_name_outcome<T>(first_match: Option<T>) -> (r: Result<T, Reply>)
    ensures
        match first_match {
            Some(id) => r == Ok::<T, Reply>(id),
            None => r matches Err(reply) && is_error_reply(
                reply,
                STATUS_BAD_REQUEST,
                "Image not found with this name"@,
            ),
        },
{
    match first_match {
        Some(id) => Ok(id),
        None => Err(error_fmt(STATUS_BAD_REQUEST, "Image not found with this name")),
    }
}

/// Whether the image decoder reads the bytes as a PNG image.
pub uninterp spec fn png_decodes(bytes: Seq<u8>) -> bool;

/// Calls `image::io::Reader::with_format(.., ImageFormat::Png).decode()` on
/// the bytes and reports whether it succeeded: a function of the bytes alone
/// (under the decoder's default memory limits), named `png_decodes`.
#[verifier::external_body]
fn decodes_as_png(bytes: &[u8]) -> (r: bool)
    ensures
        r == png_decodes(bytes@),
{
    image::io::Reader::with_format(std::io::Cursor::new(bytes), image::ImageFormat::Png)
        .decode()
        .is_ok()
}

/// The reply to a download from the image store: the bytes as a PNG image,
/// or "Image id not found" where the download could not be opened. Downloaded
/// bytes must read as a PNG image (the request is not answered otherwise).
pub fn gridfs_reply(download: Option<Vec<u8>>) -> (r: Reply)
    requires
        download matches Some(bytes) ==> png_decodes(bytes@),
    ensures
        match download {
            Some(bytes) => r.status == STATUS_OK && r.content_type == ContentType::ImagePng
                && r.body == bytes,
            None => is_error_reply(r, STATUS_BAD_REQUEST, "Image id not found"@),
        },
{
    match download {
        Some(bytes) => Reply { status: STATUS_OK, content_type: ContentType::ImagePng, body: bytes },
        None => error_fmt(STATUS_BAD_REQUEST, "Image id not found"),
    }
}

/// The reply to a download from the image store. `None` where the bytes are
/// not a PNG image, a request the service leaves unanswered.
pub fn get_response_from_gridfs(download: Option<Vec<u8>>) -> (r: Option<Reply>)
    ensures
        match download {
            Some(bytes) => if png_decodes(bytes@) {
                r matches Some(reply) && reply.status == STATUS_OK && reply.content_type
                    == ContentType::ImagePng && reply.body == bytes
            } else {
                r is None
            },
            None => r matches Some(reply) && is_error_reply(
                reply,
                STATUS_BAD_REQUEST,
                "Image id not found"@,
            ),
        },
{
    match download {
        Some(bytes) => {
            if decodes_as_png(bytes.as_slice()) {
                Some(gridfs_reply(Some(bytes)))
            } else {
                None
            }
        },
        None => Some(gridfs_reply(None)),
    }
}

/// The reply once an image is deleted: `{"message":"Image successfully deleted"}`
/// sent with the PNG media type.
pub fn delete_image_reply() -> (r: Reply)
    ensures
        r.status == STATUS_OK,
        r.content_type == ContentType::ImagePng,
        is_message_reply(
            Reply { content_type: ContentType::ApplicationJson, ..r },
            STATUS_OK,
            "Image successfully deleted"@,
        ),
{
    let r = message_reply(STATUS_OK, "Image successfully deleted");
    Reply { status: r.status, content_type: ContentType::ImagePng, body: r.body }
}

} // verus!
