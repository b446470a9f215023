//! Building the file requests of the catbox.moe API: upload from a local
//! file, upload from a remote URL, and deletion. Each function returns
//! the request's contents; the surrounding binary sends them.

use crate::form::{field, FormField};
use crate::helper::spec_file_name;
use crate::strutil::{join_space, opt_str_or_empty};
use vstd::prelude::*;
use vstd::string::*;

verus! {

/// The text fields of a `fileupload` request.
pub open spec fn spec_from_file_fields(user: Seq<char>) -> Seq<(Seq<char>, Seq<char>)> {
    seq![("reqtype"@, "fileupload"@), ("userhash"@, user)]
}

/// The form of a `urlupload` request.
pub open spec fn spec_from_url_form(url: Seq<char>, user: Seq<char>) -> Seq<
    (Seq<char>, Seq<char>),
> {
    seq![("reqtype"@, "urlupload"@), ("userhash"@, user), ("url"@, url)]
}

/// The form of a `deletefiles` request.
pub open spec fn spec_delete_form(user: Seq<char>, files: Seq<Seq<char>>) -> Seq<
    (Seq<char>, Seq<char>),
> {
    seq![("reqtype"@, "deletefiles"@), ("userhash"@, user), ("files"@, join_space(files))]
}

/// A multipart file-upload request: its text fields, and the file to
/// attach under the given part name, named by its final path component.
pub struct FileUploadRequest {
    pub fields: Vec<FormField>,
    pub file_part: String,
    pub file_path: String,
    pub file_name: String,
}

/// Build the multipart request that uploads a local file, with an absent
/// credential sent as the empty string.
pub fn from_file(file_path: String, user_hash: Option<String>) -> (r: FileUploadRequest)
    ensures
        r.fields.deep_view() == spec_from_file_fields(opt_str_or_empty(user_hash.deep_view())),
        r.file_part@ == "fileToUpload"@,
        r.file_path@ == file_path@,
        r.file_name@ == spec_file_name(file_path@),
{
    let user = match user_hash {
        Some(u) => u,
        None => String::new(),
    };
    let name = crate::helper::file_name(file_path.as_str());
    let mut fields: Vec<FormField> = Vec::new();
    fields.push(field("reqtype", String::from_str("fileupload")));
    fields.push(field("userhash", user));
    proof {
        assert(fields.deep_view() =~= spec_from_file_fields(
            opt_str_or_empty(user_hash.deep_view()),
        ));
    }
    FileUploadRequest {
        fields,
        file_part: String::from_str("fileToUpload"),
        file_path,
        file_name: name,
    }
}

/// Build the request that uploads the contents of a remote URL, with an
/// absent credential sent as the empty string.
pub fn from_url(url: String, user_hash: Option<String>) -> (form: Vec<FormField>)
    ensures
        form.deep_view() == spec_from_url_form(url@, opt_str_or_empty(user_hash.deep_view())),
{
    let user = match user_hash {
        Some(u) => u,
        None => String::new(),
    };
    let mut form: Vec<FormField> = Vec::new();
    form.push(field("reqtype", String::from_str("urlupload")));
    form.push(field("userhash", user));
    form.push(field("url", url));
    proof {
        assert(form.deep_view() =~= spec_from_url_form(
            form@[2].value@,
            opt_str_or_empty(user_hash.deep_view()),
        ));
    }
    form
}

/// Build the request that deletes the named files.
pub fn delete(user_hash: String, files: Vec<String>) -> (form: Vec<FormField>)
    ensures
        form.deep_view() == spec_delete_form(user_hash@, files.deep_view()),
{
    let joined = crate::strutil::join_with_space(&files);
    let mut form: Vec<FormField> = Vec::new();
    form.push(field("reqtype", String::from_str("deletefiles")));
    form.push(field("userhash", user_hash));
    form.push(field("files", joined));
    proof {
        assert(form.deep_view() =~= spec_delete_form(form@[1].value@, files.deep_view()));
    }
    form
}

} // verus!
