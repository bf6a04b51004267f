use crate::accounts::AccountsTable;
use crate::login::{check_if_admin, token_is_admin};
use crate::text::{contains_double_dot, has_double_dot, lemma_join_without_double_dot};
use vstd::prelude::*;

verus! {

/// A request for the files attached to a consultation.
pub struct GetAttachmentsRequest {
    pub token: String,
    pub uuid: String,
}

/// The answer to a request for attachments: their file names, or nothing.
pub struct GetAttachmentsResponse {
    pub attachments: Option<Vec<String>>,
}

/// A request to download one attached file.
pub struct GetFileRequest {
    pub uuid: String,
    pub file: String,
}

/// The directory that holds the attachments of all consultations.
pub const ATTACHMENTS_ROOT: &'static str = "consultations_files";

/// The directory that holds the attachments of consultation `uuid`.
pub open spec fn consultation_dir_text(uuid: Seq<char>) -> Seq<char> {
    ATTACHMENTS_ROOT@ + "/"@ + uuid
}

/// The path of the attachment `file` of consultation `uuid`.
pub open spec fn consultation_file_text(uuid: Seq<char>, file: Seq<char>) -> Seq<char> {
    consultation_dir_text(uuid) + "/"@ + file
}

/// An upload is refused when either name holds `..` or is longer than 256
/// characters.
pub open spec fn upload_refused(uuid: Seq<char>, filename: Seq<char>) -> bool {
    has_double_dot(uuid) || has_double_dot(filename) || uuid.len() > 256 || filename.len() > 256
}

/// The directory that holds the attachments of consultation `uuid`.
pub fn consultation_dir(uuid: &str) -> (dir: String)
    ensures
        dir@ == consultation_dir_text(uuid@),
{
    let mut dir = String::from_str(ATTACHMENTS_ROOT);
    dir.append("/");
    dir.append(uuid);
    dir
}

/// The path of the attachment `file` of consultation `uuid`.
pub fn consultation_file_path(uuid: &str, file: &str) -> (path: String)
    ensures
        path@ == consultation_file_text(uuid@, file@),
{
    let mut path = consultation_dir(uuid);
    path.append("/");
    path.append(file);
    path
}

/// Where an uploaded file of consultation `uuid` named `filename` is saved,
/// or `None` when the upload is refused.
pub fn upload_destination(uuid: &str, filename: &str) -> (path: Option<String>)
    ensures
        path is None <==> upload_refused(uuid@, filename@),
        path matches Some(p) ==> p@ == consultation_file_text(uuid@, filename@),
        path matches Some(p) ==> !has_double_dot(p@),
        !has_double_dot(uuid@) && !has_double_dot(filename@) && uuid@.len() <= 256
            && filename@.len() <= 256 ==> (path matches Some(p) && p@ == ATTACHMENTS_ROOT@ + "/"@
            + uuid@ + "/"@ + filename@),
{
    proof {
        lemma_upload_rules(uuid@, filename@);
    }
    if contains_double_dot(uuid) || contains_double_dot(filename) || uuid.unicode_len() > 256
        || filename.unicode_len() > 256 {
        return None;
    }
    proof {
        lemma_attachment_path_has_no_double_dot(uuid@, filename@);
    }
    Some(consultation_file_path(uuid, filename))
}

/// An upload is refused exactly when a name holds two consecutive dots or is
/// longer than 256 characters; any other pair of names is accepted, whatever
/// else the names hold (hyphens, other dots, any script).
pub proof fn lemma_upload_rules(uuid: Seq<char>, filename: Seq<char>)
    ensures
        upload_refused(uuid, filename) <==> (has_double_dot(uuid) || has_double_dot(filename)
            || uuid.len() > 256 || filename.len() > 256),
{
}

/// Two consecutive dots are found exactly where a dot is followed by a dot:
/// a name with no dot, or with no two dots side by side, holds no `..`.
pub proof fn lemma_double_dot_needs_adjacent_dots(s: Seq<char>)
    ensures
        has_double_dot(s) <==> exists|i: int|
            0 <= i && i + 1 < s.len() && #[trigger] s[i] == '.' && s[i + 1] == '.',
{
    if has_double_dot(s) {
        let i = choose|i: int| #[trigger] crate::text::dot_pair_at(s, i);
        assert(s[i] == '.' && s[i + 1] == '.');
    }
    if exists|i: int| 0 <= i && i + 1 < s.len() && #[trigger] s[i] == '.' && s[i + 1] == '.' {
        let i = choose|i: int| 0 <= i && i + 1 < s.len() && #[trigger] s[i] == '.' && s[i + 1] == '.';
        assert(crate::text::dot_pair_at(s, i));
    }
}

/// What a request that reads attachments is answered with.
pub enum AttachmentAccess {
    /// The token belongs to no administrator.
    Unauthorized,
    /// A name in the request holds `..`.
    BadRequest,
    /// The request may read this path.
    Granted(String),
}

/// Decides a request to list the attachments of consultation `uuid`: only an
/// administrator may, and only for a name without `..`.
pub fn attachment_listing_access(accounts: &AccountsTable, token: &str, uuid: &str) -> (access: AttachmentAccess)
    ensures
        !token_is_admin(accounts@, token@) ==> access is Unauthorized,
        token_is_admin(accounts@, token@) && has_double_dot(uuid@) ==> access is BadRequest,
        token_is_admin(accounts@, token@) && !has_double_dot(uuid@) ==> (access
            matches AttachmentAccess::Granted(dir) && dir@ == consultation_dir_text(uuid@)),
        access matches AttachmentAccess::Granted(dir) ==> !has_double_dot(dir@),
{
    if !check_if_admin(accounts, token) {
        return AttachmentAccess::Unauthorized;
    }
    if contains_double_dot(uuid) {
        return AttachmentAccess::BadRequest;
    }
    proof {
        lemma_consultation_dir_has_no_double_dot(uuid@);
    }
    AttachmentAccess::Granted(consultation_dir(uuid))
}

/// Decides a request to download the attachment `file` of consultation
/// `uuid`: only an administrator may, and only for names without `..`.
pub fn attachment_download_access(
    accounts: &AccountsTable,
    token: &str,
    uuid: &str,
    file: &str,
) -> (access: AttachmentAccess)
    ensures
        !token_is_admin(accounts@, token@) ==> access is Unauthorized,
        token_is_admin(accounts@, token@) && (has_double_dot(uuid@) || has_double_dot(file@))
            ==> access is BadRequest,
        token_is_admin(accounts@, token@) && !has_double_dot(uuid@) && !has_double_dot(file@)
            ==> (access matches AttachmentAccess::Granted(path) && path@ == consultation_file_text(
            uuid@,
            file@,
        )),
        access matches AttachmentAccess::Granted(path) ==> !has_double_dot(path@),
{
    if !check_if_admin(accounts, token) {
        return AttachmentAccess::Unauthorized;
    }
    if contains_double_dot(uuid) || contains_double_dot(file) {
        return AttachmentAccess::BadRequest;
    }
    proof {
        lemma_attachment_path_has_no_double_dot(uuid@, file@);
    }
    AttachmentAccess::Granted(consultation_file_path(uuid, file))
}

/// The answer listing `files`: nothing when there are none.
pub fn attachments_response(files: Vec<String>) -> (response: GetAttachmentsResponse)
    ensures
        files@.len() == 0 ==> response.attachments is None,
        files@.len() != 0 ==> response.attachments == Some(files),
{
    if files.len() == 0 {
        GetAttachmentsResponse { attachments: None }
    } else {
        GetAttachmentsResponse { attachments: Some(files) }
    }
}

/// The attachments directory of a consultation whose name holds no `..`
/// holds no `..` either.
pub proof fn lemma_consultation_dir_has_no_double_dot(uuid: Seq<char>)
    requires
        !has_double_dot(uuid),
    ensures
        !has_double_dot(consultation_dir_text(uuid)),
{
    reveal_strlit("consultations_files");
    reveal_strlit("/");
    let root = ATTACHMENTS_ROOT@;
    assert(root.len() == 19);
    assert forall|i: int| 0 <= i < root.len() implies #[trigger] root[i] != '.' by {}
    assert(!has_double_dot(root)) by {
        assert forall|i: int| !#[trigger] crate::text::dot_pair_at(root, i) by {
            if 0 <= i < root.len() {
                assert(root[i] != '.');
            }
        }
    }
    assert(!has_double_dot("/"@)) by {
        assert forall|i: int| !#[trigger] crate::text::dot_pair_at("/"@, i) by {}
    }
    lemma_join_without_double_dot(root, "/"@);
    lemma_join_without_double_dot(root + "/"@, uuid);
}

/// A path made of names without `..` holds no `..`, so no granted listing,
/// download or upload can reach outside the attachments of its consultation.
pub proof fn lemma_attachment_path_has_no_double_dot(uuid: Seq<char>, file: Seq<char>)
    requires
        !has_double_dot(uuid),
        !has_double_dot(file),
    ensures
        !has_double_dot(consultation_dir_text(uuid)),
        !has_double_dot(consultation_file_text(uuid, file)),
{
    reveal_strlit("/");
    lemma_consultation_dir_has_no_double_dot(uuid);
    assert(!has_double_dot("/"@)) by {
        assert forall|i: int| !#[trigger] crate::text::dot_pair_at("/"@, i) by {}
    }
    let dir = consultation_dir_text(uuid);
    lemma_join_without_double_dot(dir, "/"@);
    let dir_slash = dir + "/"@;
    assert(dir_slash.last() == '/');
    lemma_join_without_double_dot(dir_slash, file);
}

} // verus!
