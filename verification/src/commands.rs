//! The compute halves of the command handlers: resolving the credential,
//! mapping copy-pasted URLs to bare identifiers, planning the concurrent
//! upload batches, and building each single-shot command's request form.
//! The surrounding binary only reads the environment, performs the HTTP
//! calls, and prints the lines the plans hand back.

use crate::album;
use crate::args::{
    resolved_user, resolve_user_hash, Album, AlbumAdd, AlbumCommand, AlbumCreate, AlbumDelete,
    AlbumEdit, AlbumRemove, Delete, Litter, Upload,
};
use crate::classify::{classify_batch, filter_by_flag, select_class, split_existing, UriKind};
use crate::dispatch::{FanOut, TaskKind};
use crate::extract::{
    album_url_to_short, extract_image_names, spec_album_short, spec_image_names,
};
use crate::file;
use crate::form::FormField;
use crate::strutil::opt_str_or_empty;
use vstd::prelude::*;

verus! {

/// The in-flight ceiling of every fan-out group.
pub const CONCURRENCY_LIMIT: usize = 10;

/// Whether `g` is a fresh fan-out group of kind `kind` over `items`, with
/// nothing launched and the fixed concurrency ceiling.
pub open spec fn fresh_group(g: &FanOut, kind: TaskKind, items: Seq<Seq<char>>) -> bool {
    &&& g.wf()
    &&& g.kind == kind
    &&& g.items.deep_view() == items
    &&& g.limit == CONCURRENCY_LIMIT
    &&& g.next_item == 0
    &&& g.finished == 0
    &&& g.outcomes.len() == 0
}

/// The upload command, planned: the resolved credential and one fresh
/// group per class of the batch.
pub struct UploadPlan {
    pub user: Option<String>,
    pub files: FanOut,
    pub urls: FanOut,
    pub invalid: FanOut,
}

/// Plan the upload command: classify the batch against the filesystem and
/// URL syntax, resolve the credential, and set up the three groups —
/// local file uploads, URL uploads, and fixed lines for invalid items.
pub fn plan_upload(args: Upload, env_user: Option<String>) -> (p: UploadPlan)
    ensures
        p.user.deep_view() == resolved_user(args.user_hash.deep_view(), env_user.deep_view()),
        exists|ex: Seq<bool>|
            {
                &&& ex.len() == args.files.deep_view().len()
                &&& fresh_group(
                    &p.files,
                    TaskKind::FileUpload,
                    select_class(args.files.deep_view(), ex, UriKind::FilePath),
                )
                &&& fresh_group(
                    &p.urls,
                    TaskKind::UrlUpload,
                    select_class(args.files.deep_view(), ex, UriKind::RemoteUrl),
                )
                &&& fresh_group(
                    &p.invalid,
                    TaskKind::InvalidEntry,
                    select_class(args.files.deep_view(), ex, UriKind::Invalid),
                )
            },
{
    let Upload { user_hash, files } = args;
    let c = classify_batch(&files);
    let user = resolve_user_hash(user_hash, env_user);
    let ghost ex = choose|ex: Seq<bool>|
        crate::classify::is_classification(&c, files.deep_view(), ex);
    let p = UploadPlan {
        user,
        files: FanOut::new(TaskKind::FileUpload, c.files, CONCURRENCY_LIMIT),
        urls: FanOut::new(TaskKind::UrlUpload, c.urls, CONCURRENCY_LIMIT),
        invalid: FanOut::new(TaskKind::InvalidEntry, c.invalid, CONCURRENCY_LIMIT),
    };
    proof {
        assert(fresh_group(
            &p.files,
            TaskKind::FileUpload,
            select_class(files.deep_view(), ex, UriKind::FilePath),
        ));
    }
    p
}

/// The litter command, planned: the retention in hours and one fresh
/// group per half of the split.
pub struct LitterPlan {
    pub time: u8,
    pub files: FanOut,
    pub invalid: FanOut,
}

/// Plan the litter command: split the batch by filesystem existence —
/// the ephemeral service takes no URLs — and default the retention to one
/// hour when none was given.
pub fn plan_litter(args: Litter) -> (p: LitterPlan)
    ensures
        p.time == (match args.time {
            Some(t) => t,
            None => 1u8,
        }),
        exists|ex: Seq<bool>|
            {
                &&& ex.len() == args.files.deep_view().len()
                &&& fresh_group(
                    &p.files,
                    TaskKind::LitterUpload,
                    filter_by_flag(args.files.deep_view(), ex, true),
                )
                &&& fresh_group(
                    &p.invalid,
                    TaskKind::InvalidEntry,
                    filter_by_flag(args.files.deep_view(), ex, false),
                )
            },
{
    let Litter { time, files } = args;
    let (on_disk, rest) = split_existing(&files);
    let hours: u8 = match time {
        Some(t) => t,
        None => 1,
    };
    let ghost ex = choose|ex: Seq<bool>|
        {
            &&& ex.len() == files.deep_view().len()
            &&& on_disk.deep_view() == filter_by_flag(files.deep_view(), ex, true)
            &&& rest.deep_view() == filter_by_flag(files.deep_view(), ex, false)
        };
    let p = LitterPlan {
        time: hours,
        files: FanOut::new(TaskKind::LitterUpload, on_disk, CONCURRENCY_LIMIT),
        invalid: FanOut::new(TaskKind::InvalidEntry, rest, CONCURRENCY_LIMIT),
    };
    proof {
        assert(fresh_group(
            &p.files,
            TaskKind::LitterUpload,
            filter_by_flag(files.deep_view(), ex, true),
        ));
    }
    p
}

/// One line per input item for a whole upload batch: when the three
/// groups of a plan over a classified batch are all drained, their
/// outcome lines together number exactly the input items.
pub proof fn lemma_plan_outcome_total(
    files: &FanOut,
    urls: &FanOut,
    invalid: &FanOut,
    items: Seq<Seq<char>>,
    ex: Seq<bool>,
)
    requires
        ex.len() == items.len(),
        files.wf(),
        urls.wf(),
        invalid.wf(),
        files.items.deep_view() == select_class(items, ex, UriKind::FilePath),
        urls.items.deep_view() == select_class(items, ex, UriKind::RemoteUrl),
        invalid.items.deep_view() == select_class(items, ex, UriKind::Invalid),
        files.finished == files.items.len(),
        urls.finished == urls.items.len(),
        invalid.finished == invalid.items.len(),
    ensures
        files.outcomes.len() + urls.outcomes.len() + invalid.outcomes.len() == items.len(),
{
    crate::classify::lemma_partition_total(items, ex);
}

/// One line per input item for a whole litter batch: when both groups of
/// a plan over an existence split are drained, their outcome lines
/// together number exactly the input items.
pub proof fn lemma_litter_outcome_total(
    files: &FanOut,
    invalid: &FanOut,
    items: Seq<Seq<char>>,
    ex: Seq<bool>,
)
    requires
        ex.len() == items.len(),
        files.wf(),
        invalid.wf(),
        files.items.deep_view() == filter_by_flag(items, ex, true),
        invalid.items.deep_view() == filter_by_flag(items, ex, false),
        files.finished == files.items.len(),
        invalid.finished == invalid.items.len(),
    ensures
        files.outcomes.len() + invalid.outcomes.len() == items.len(),
{
    crate::classify::lemma_split_total(items, ex);
}

/// The credential a mutating command sends: the resolved credential, or
/// the empty string when neither the flag nor the environment has one.
pub open spec fn resolved_user_or_empty(
    flag: Option<Seq<char>>,
    env: Option<Seq<char>>,
) -> Seq<char> {
    opt_str_or_empty(resolved_user(flag, env))
}

fn resolve_user_or_empty(flag: Option<String>, env: Option<String>) -> (r: String)
    ensures
        r@ == resolved_user_or_empty(flag.deep_view(), env.deep_view()),
{
    match resolve_user_hash(flag, env) {
        Some(u) => u,
        None => String::new(),
    }
}

/// Build the delete command's request: each argument mapped to its bare
/// file identifier, the credential resolved with the empty string as the
/// last resort.
pub fn delete_request(args: Delete, env_user: Option<String>) -> (form: Vec<FormField>)
    ensures
        form.deep_view() == file::spec_delete_form(
            resolved_user_or_empty(args.user_hash.deep_view(), env_user.deep_view()),
            spec_image_names(args.files.deep_view()),
        ),
{
    let Delete { user_hash, files } = args;
    let user = resolve_user_or_empty(user_hash, env_user);
    let ids = extract_image_names(&files);
    file::delete(user, ids)
}

/// Build the album-create request: the files mapped to bare identifiers,
/// a missing description sent empty, the credential kept optional.
pub fn create_album_request(args: AlbumCreate, env_user: Option<String>) -> (form: Vec<FormField>)
    ensures
        form.deep_view() == album::spec_create_form(
            args.title@,
            opt_str_or_empty(args.description.deep_view()),
            resolved_user_or_empty(args.user_hash.deep_view(), env_user.deep_view()),
            spec_image_names(args.files.deep_view()),
        ),
{
    let AlbumCreate { title, description, user_hash, files } = args;
    let desc = match description {
        Some(d) => d,
        None => String::new(),
    };
    let user = resolve_user_hash(user_hash, env_user);
    let ids = extract_image_names(&files);
    album::create(title, desc, user, ids)
}

/// Build the album-edit request: the album identifier taken from a bare
/// identifier or a pasted album URL, the files mapped to bare
/// identifiers. The album is overwritten whole.
pub fn edit_album_request(args: AlbumEdit, env_user: Option<String>) -> (form: Vec<FormField>)
    ensures
        form.deep_view() == album::spec_edit_form(
            spec_album_short(args.short@),
            args.title@,
            opt_str_or_empty(args.description.deep_view()),
            resolved_user_or_empty(args.user_hash.deep_view(), env_user.deep_view()),
            spec_image_names(args.files.deep_view()),
        ),
{
    let AlbumEdit { short, title, description, user_hash, files } = args;
    let desc = match description {
        Some(d) => d,
        None => String::new(),
    };
    let user = resolve_user_or_empty(user_hash, env_user);
    let ids = extract_image_names(&files);
    album::edit(album_url_to_short(short.as_str()), title, desc, user, ids)
}

/// Build the album-add request.
pub fn add_to_album_request(args: AlbumAdd, env_user: Option<String>) -> (form: Vec<FormField>)
    ensures
        form.deep_view() == album::spec_add_form(
            spec_album_short(args.short@),
            resolved_user_or_empty(args.user_hash.deep_view(), env_user.deep_view()),
            spec_image_names(args.files.deep_view()),
        ),
{
    let AlbumAdd { short, user_hash, files } = args;
    let user = resolve_user_or_empty(user_hash, env_user);
    let ids = extract_image_names(&files);
    album::add_files(album_url_to_short(short.as_str()), user, ids)
}

/// Build the album-remove request.
pub fn remove_from_album_request(args: AlbumRemove, env_user: Option<String>) -> (form: Vec<
    FormField,
>)
    ensures
        form.deep_view() == album::spec_remove_form(
            spec_album_short(args.short@),
            resolved_user_or_empty(args.user_hash.deep_view(), env_user.deep_view()),
            spec_image_names(args.files.deep_view()),
        ),
{
    let AlbumRemove { short, user_hash, files } = args;
    let user = resolve_user_or_empty(user_hash, env_user);
    let ids = extract_image_names(&files);
    album::remove_files(album_url_to_short(short.as_str()), user, ids)
}

/// Build the album-delete request.
pub fn delete_album_request(args: AlbumDelete, env_user: Option<String>) -> (form: Vec<FormField>)
    ensures
        form.deep_view() == album::spec_delete_form(
            spec_album_short(args.short@),
            resolved_user_or_empty(args.user_hash.deep_view(), env_user.deep_view()),
        ),
{
    let AlbumDelete { user_hash, short } = args;
    let user = resolve_user_or_empty(user_hash, env_user);
    album::delete(album_url_to_short(short.as_str()), user)
}

/// The request an album subcommand stands for.
pub open spec fn spec_album_request(
    cmd: &AlbumCommand,
    env_user: Option<Seq<char>>,
) -> Seq<(Seq<char>, Seq<char>)> {
    match cmd {
        AlbumCommand::Create(a) => album::spec_create_form(
            a.title@,
            opt_str_or_empty(a.description.deep_view()),
            resolved_user_or_empty(a.user_hash.deep_view(), env_user),
            spec_image_names(a.files.deep_view()),
        ),
        AlbumCommand::Edit(a) => album::spec_edit_form(
            spec_album_short(a.short@),
            a.title@,
            opt_str_or_empty(a.description.deep_view()),
            resolved_user_or_empty(a.user_hash.deep_view(), env_user),
            spec_image_names(a.files.deep_view()),
        ),
        AlbumCommand::Add(a) => album::spec_add_form(
            spec_album_short(a.short@),
            resolved_user_or_empty(a.user_hash.deep_view(), env_user),
            spec_image_names(a.files.deep_view()),
        ),
        AlbumCommand::Remove(a) => album::spec_remove_form(
            spec_album_short(a.short@),
            resolved_user_or_empty(a.user_hash.deep_view(), env_user),
            spec_image_names(a.files.deep_view()),
        ),
        AlbumCommand::Delete(a) => album::spec_delete_form(
            spec_album_short(a.short@),
            resolved_user_or_empty(a.user_hash.deep_view(), env_user),
        ),
    }
}

/// Route an album subcommand to its request builder.
pub fn album_request(args: Album, env_user: Option<String>) -> (form: Vec<FormField>)
    ensures
        form.deep_view() == spec_album_request(&args.album_command, env_user.deep_view()),
{
    let Album { album_command } = args;
    match album_command {
        AlbumCommand::Create(a) => create_album_request(a, env_user),
        AlbumCommand::Edit(a) => edit_album_request(a, env_user),
        AlbumCommand::Add(a) => add_to_album_request(a, env_user),
        AlbumCommand::Remove(a) => remove_from_album_request(a, env_user),
        AlbumCommand::Delete(a) => delete_album_request(a, env_user),
    }
}

} // verus!
