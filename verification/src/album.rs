//! Building the album requests of the catbox.moe API: create, edit, add,
//! remove and delete. Each function returns the request's form fields;
//! the surrounding binary sends them to the API endpoint.

use crate::form::{field, FormField};
use crate::strutil::{join_space, opt_str_or_empty};
use vstd::prelude::*;
use vstd::string::*;

verus! {

/// The form of a `createalbum` request.
pub open spec fn spec_create_form(
    title: Seq<char>,
    desc: Seq<char>,
    user: Seq<char>,
    files: Seq<Seq<char>>,
) -> Seq<(Seq<char>, Seq<char>)> {
    seq![
        ("reqtype"@, "createalbum"@),
        ("userhash"@, user),
        ("title"@, title),
        ("desc"@, desc),
        ("files"@, join_space(files)),
    ]
}

/// The form of an `editalbum` request. The album is overwritten whole:
/// after the call it holds exactly the files named here.
pub open spec fn spec_edit_form(
    short: Seq<char>,
    title: Seq<char>,
    desc: Seq<char>,
    user: Seq<char>,
    files: Seq<Seq<char>>,
) -> Seq<(Seq<char>, Seq<char>)> {
    seq![
        ("reqtype"@, "editalbum"@),
        ("userhash"@, user),
        ("short"@, short),
        ("title"@, title),
        ("desc"@, desc),
        ("files"@, join_space(files)),
    ]
}

/// The form of an `addtoalbum` request.
pub open spec fn spec_add_form(short: Seq<char>, user: Seq<char>, files: Seq<Seq<char>>) -> Seq<
    (Seq<char>, Seq<char>),
> {
    seq![
        ("reqtype"@, "addtoalbum"@),
        ("short"@, short),
        ("userhash"@, user),
        ("files"@, join_space(files)),
    ]
}

/// The form of a `removefromalbum` request.
pub open spec fn spec_remove_form(short: Seq<char>, user: Seq<char>, files: Seq<Seq<char>>) -> Seq<
    (Seq<char>, Seq<char>),
> {
    seq![
        ("reqtype"@, "removefromalbum"@),
        ("userhash"@, user),
        ("short"@, short),
        ("files"@, join_space(files)),
    ]
}

/// The form of a `deletealbum` request.
pub open spec fn spec_delete_form(short: Seq<char>, user: Seq<char>) -> Seq<
    (Seq<char>, Seq<char>),
> {
    seq![("reqtype"@, "deletealbum"@), ("userhash"@, user), ("short"@, short)]
}

/// Build the request that creates a new album holding `files`, with an
/// absent credential sent as the empty string.
pub fn create(title: String, desc: String, user_hash: Option<String>, files: Vec<String>) -> (form:
    Vec<FormField>)
    ensures
        form.deep_view() == spec_create_form(
            title@,
            desc@,
            opt_str_or_empty(user_hash.deep_view()),
            files.deep_view(),
        ),
{
    let user = match user_hash {
        Some(u) => u,
        None => String::new(),
    };
    let joined = crate::strutil::join_with_space(&files);
    let mut form: Vec<FormField> = Vec::new();
    form.push(field("reqtype", String::from_str("createalbum")));
    form.push(field("userhash", user));
    form.push(field("title", title));
    form.push(field("desc", desc));
    form.push(field("files", joined));
    proof {
        assert(form.deep_view() =~= spec_create_form(
            title@,
            desc@,
            opt_str_or_empty(user_hash.deep_view()),
            files.deep_view(),
        ));
    }
    form
}

/// Build the request that overwrites an album: after it, the album holds
/// exactly `files`, under the given title and description.
pub fn edit(
    short: String,
    title: String,
    desc: String,
    user_hash: String,
    files: Vec<String>,
) -> (form: Vec<FormField>)
    ensures
        form.deep_view() == spec_edit_form(short@, title@, desc@, user_hash@, files.deep_view()),
{
    let joined = crate::strutil::join_with_space(&files);
    let mut form: Vec<FormField> = Vec::new();
    form.push(field("reqtype", String::from_str("editalbum")));
    form.push(field("userhash", user_hash));
    form.push(field("short", short));
    form.push(field("title", title));
    form.push(field("desc", desc));
    form.push(field("files", joined));
    proof {
        assert(form.deep_view() =~= spec_edit_form(
            form@[2].value@,
            form@[3].value@,
            form@[4].value@,
            form@[1].value@,
            files.deep_view(),
        ));
    }
    form
}

/// Build the request that adds `files` to an existing album.
pub fn add_files(short: String, user_hash: String, files: Vec<String>) -> (form: Vec<FormField>)
    ensures
        form.deep_view() == spec_add_form(short@, user_hash@, files.deep_view()),
{
    let joined = crate::strutil::join_with_space(&files);
    let mut form: Vec<FormField> = Vec::new();
    form.push(field("reqtype", String::from_str("addtoalbum")));
    form.push(field("short", short));
    form.push(field("userhash", user_hash));
    form.push(field("files", joined));
    proof {
        assert(form.deep_view() =~= spec_add_form(
            form@[1].value@,
            form@[2].value@,
            files.deep_view(),
        ));
    }
    form
}

/// Build the request that removes `files` from an existing album.
pub fn remove_files(short: String, user_hash: String, files: Vec<String>) -> (form: Vec<FormField>)
    ensures
        form.deep_view() == spec_remove_form(short@, user_hash@, files.deep_view()),
{
    let joined = crate::strutil::join_with_space(&files);
    let mut form: Vec<FormField> = Vec::new();
    form.push(field("reqtype", String::from_str("removefromalbum")));
    form.push(field("userhash", user_hash));
    form.push(field("short", short));
    form.push(field("files", joined));
    proof {
        assert(form.deep_view() =~= spec_remove_form(
            form@[2].value@,
            form@[1].value@,
            files.deep_view(),
        ));
    }
    form
}

/// Build the request that deletes an album.
pub fn delete(short: String, user_hash: String) -> (form: Vec<FormField>)
    ensures
        form.deep_view() == spec_delete_form(short@, user_hash@),
{
    let mut form: Vec<FormField> = Vec::new();
    form.push(field("reqtype", String::from_str("deletealbum")));
    form.push(field("userhash", user_hash));
    form.push(field("short", short));
    proof {
        assert(form.deep_view() =~= spec_delete_form(form@[2].value@, form@[1].value@));
    }
    form
}

} // verus!
