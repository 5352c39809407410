//! File routes: storing a file sent as multipart fields, fetching it, and
//! charging a view of it to its viewer and crediting it to its owner.

use vstd::prelude::*;
use crate::models::user::Account;
use crate::object_id::{spec_parse_object_id, ObjectId};
use crate::reply::{
    error_fmt, is_error_reply, is_string_reply, string_reply, ContentType, Reply,
    STATUS_BAD_REQUEST, STATUS_CREATED, STATUS_OK,
};

verus! {

/// A stored file: its name, its owner and its bytes.
#[derive(Debug)]
pub struct AppFile {
    pub name: String,
    pub owner_id: ObjectId,
    pub data: Vec<u8>,
}

/// A request to view a file, naming the file, its owner and the viewer by id.
#[derive(Debug)]
pub struct ViewRequestBody {
    pub file_id: String,
    pub owner_id: String,
    pub viewer_id: String,
}

/// What a multipart field of a new file is for, by its name.
#[derive(Clone, Copy, Debug, PartialEq, Eq, Structural)]
pub enum FileFieldRole {
    /// `file`: the file's name and bytes.
    Content,
    /// `owner_id`: the owner's id as text.
    Owner,
    /// Any other field, which is skipped.
    Other,
}

/// The role of a field with this name.
pub open spec fn spec_file_field_role(name: Seq<char>) -> FileFieldRole {
    if name == "file"@ {
        FileFieldRole::Content
    } else if name == "owner_id"@ {
        FileFieldRole::Owner
    } else {
        FileFieldRole::Other
    }
}

/// The role of a multipart field of a new file, by its name.
pub fn file_field_role(name: &String) -> (r: FileFieldRole)
    ensures
        r == spec_file_field_role(name@),
{
    let content = String::from_str("file");
    let owner = String::from_str("owner_id");
    if *name == content {
        FileFieldRole::Content
    } else if *name == owner {
        FileFieldRole::Owner
    } else {
        FileFieldRole::Other
    }
}

/// A multipart field of a new file, read according to its role.
#[derive(Debug)]
pub enum NewFileField {
    /// The `file` field: the file name it declares and its bytes.
    Content { file_name: String, data: Vec<u8> },
    /// The `owner_id` field: its text.
    Owner { text: String },
    /// A field that is skipped.
    Other,
}

/// The file before any field is read: no name, no bytes, a fresh owner id.
pub fn empty_app_file() -> (f: AppFile)
    ensures
        f.name@.len() == 0,
        f.data@.len() == 0,
{
    AppFile { name: String::new(), owner_id: ObjectId::new(), data: Vec::new() }
}

/// Takes one field into the file being built: the `file` field sets the name
/// and bytes, the `owner_id` field sets the owner, other fields change nothing.
/// The owner text must be an id (the request is not answered otherwise).
pub fn apply_file_field(file: AppFile, field: NewFileField) -> (r: AppFile)
    requires
        field matches NewFileField::Owner { text } ==> spec_parse_object_id(text@) is Some,
    ensures
        match field {
            NewFileField::Content { file_name, data } => r.name == file_name && r.data == data
                && r.owner_id == file.owner_id,
            NewFileField::Owner { text } => r.name == file.name && r.data == file.data && Some(
                r.owner_id@,
            ) == spec_parse_object_id(text@),
            NewFileField::Other => r == file,
        },
{
    match field {
        NewFileField::Content { file_name, data } => AppFile {
            name: file_name,
            owner_id: file.owner_id,
            data,
        },
        NewFileField::Owner { text } => {
            let owner_id = ObjectId::parse_str(text.as_str()).unwrap();
            AppFile { name: file.name, owner_id, data: file.data }
        },
        NewFileField::Other => file,
    }
}

/// The reply once a new file is stored: 201 with the JSON string
/// "user successfully loaded".
pub fn post_new_file_reply() -> (r: Reply)
    ensures
        is_string_reply(r, STATUS_CREATED, "user successfully loaded"@),
{
    string_reply(STATUS_CREATED, "user successfully loaded")
}

/// The reply to a request for a file by id: its bytes as a PDF document, or
/// "Request not processed correctly" where no file has that id.
pub open spec fn is_file_reply(found: Option<AppFile>, r: Reply) -> bool {
    match found {
        Some(f) => r.status == STATUS_OK && r.content_type == ContentType::ApplicationPdf && r.body
            == f.data,
        None => is_error_reply(r, STATUS_BAD_REQUEST, "Request not processed correctly"@),
    }
}

/// The reply to a request for a file, given the first stored file with the
/// asked id.
pub fn get_file_reply(found: Option<AppFile>) -> (r: Reply)
    ensures
        is_file_reply(found, r),
{
    match found {
        Some(f) => Reply { status: STATUS_OK, content_type: ContentType::ApplicationPdf, body: f.data },
        None => error_fmt(STATUS_BAD_REQUEST, "Request not processed correctly"),
    }
}

/// The accounts after one view: the owner has earned one more, the viewer owes
/// one more, and nothing else changes.
pub open spec fn charged_view(owner: Account, viewer: Account) -> (Account, Account) {
    (
        Account { earnings: (owner.earnings + 1) as i64, bill: owner.bill },
        Account { earnings: viewer.earnings, bill: (viewer.bill + 1) as i64 },
    )
}

/// Credits one view to the owner and charges it to the viewer.
pub fn charge_view(owner: Account, viewer: Account) -> (r: (Account, Account))
    requires
        owner.earnings < i64::MAX,
        viewer.bill < i64::MAX,
    ensures
        r == charged_view(owner, viewer),
{
    (
        Account { earnings: owner.earnings + 1, bill: owner.bill },
        Account { earnings: viewer.earnings, bill: viewer.bill + 1 },
    )
}

/// What a view request comes to.
#[derive(Debug)]
pub enum ViewOutcome {
    /// Store the owner's new earnings and the viewer's new bill, then send the file.
    Charge { owner_earnings: i64, viewer_bill: i64, reply: Reply },
    /// No file has the asked id.
    Reject { reply: Reply },
}

/// The outcome of a view request, given both accounts and the first stored
/// file with the asked id. A found file is charged, which needs room for one
/// more in both counters.
pub fn get_file_as_view_outcome(owner: Account, viewer: Account, found: Option<AppFile>) -> (r:
    ViewOutcome)
    requires
        found is Some ==> owner.earnings < i64::MAX && viewer.bill < i64::MAX,
    ensures
        match r {
            ViewOutcome::Charge { owner_earnings, viewer_bill, reply } => {
                &&& found is Some
                &&& owner_earnings == owner.earnings + 1
                &&& viewer_bill == viewer.bill + 1
                &&& is_file_reply(found, reply)
            },
            ViewOutcome::Reject { reply } => found is None && is_file_reply(found, reply),
        },
{
    match found {
        Some(f) => {
            let (o, v) = charge_view(owner, viewer);
            ViewOutcome::Charge {
                owner_earnings: o.earnings,
                viewer_bill: v.bill,
                reply: get_file_reply(Some(f)),
            }
        },
        None => ViewOutcome::Reject { reply: get_file_reply(None) },
    }
}

/// A view moves exactly one unit: the owner's earnings and the viewer's bill
/// each grow by one, so earnings less bill over the two accounts is unchanged.
pub proof fn lemma_view_moves_one_unit(owner: Account, viewer: Account)
    requires
        owner.earnings < i64::MAX,
        viewer.bill < i64::MAX,
    ensures
        ({
            let (o, v) = charged_view(owner, viewer);
            &&& o.earnings - owner.earnings == 1
            &&& v.bill - viewer.bill == 1
            &&& (o.earnings + v.earnings) - (o.bill + v.bill) == (owner.earnings + viewer.earnings)
                - (owner.bill + viewer.bill)
        }),
{
}

} // verus!
