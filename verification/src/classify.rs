//! Splitting a batch of raw command-line items into existing file paths,
//! syntactically valid remote URLs, and everything else.

use vstd::multiset::Multiset;
use vstd::prelude::*;

verus! {

/// The three classes an input item can fall in.
#[derive(Clone, Copy, Debug, PartialEq, Eq, Structural)]
pub enum UriKind {
    FilePath,
    RemoteUrl,
    Invalid,
}

/// What an absolute-URL syntax check with the `url` crate answers for a
/// string; a function of the characters alone.
pub uninterp spec fn url_syntax_ok(s: Seq<char>) -> bool;

/// Relies on `url::Url::parse`, which parses an absolute URL from a string
/// and errors when it cannot; the answer depends on the string alone.
#[verifier::external_body]
fn parses_as_url(s: &str) -> (r: bool)
    ensures
        r == url_syntax_ok(s@),
{
    url::Url::parse(s).is_ok()
}

/// Relies on `std::path::Path::exists`, which answers whether the path
/// refers to an existing filesystem entry at this moment. Nothing is
/// assumed of the answer: what is on disk can change between calls.
#[verifier::external_body]
fn path_exists(s: &str) -> bool {
    std::path::Path::new(s).exists()
}

/// The class of one item: a path that is on disk is a file whatever else
/// it looks like; otherwise a string with URL syntax is a remote URL;
/// anything else is invalid.
pub open spec fn spec_kind(s: Seq<char>, on_disk: bool) -> UriKind {
    if on_disk {
        UriKind::FilePath
    } else if url_syntax_ok(s) {
        UriKind::RemoteUrl
    } else {
        UriKind::Invalid
    }
}

/// The items of class `k`, in input order, when `ex` records which items
/// are on disk.
pub open spec fn select_class(items: Seq<Seq<char>>, ex: Seq<bool>, k: UriKind) -> Seq<Seq<char>>
    recommends
        ex.len() == items.len(),
    decreases items.len(),
{
    if items.len() == 0 {
        Seq::empty()
    } else {
        let rest = select_class(items.drop_last(), ex.drop_last(), k);
        if spec_kind(items.last(), ex.last()) == k {
            rest.push(items.last())
        } else {
            rest
        }
    }
}

/// The items whose flag in `ex` is `keep`, in input order.
pub open spec fn filter_by_flag(items: Seq<Seq<char>>, ex: Seq<bool>, keep: bool) -> Seq<Seq<char>>
    recommends
        ex.len() == items.len(),
    decreases items.len(),
{
    if items.len() == 0 {
        Seq::empty()
    } else {
        let rest = filter_by_flag(items.drop_last(), ex.drop_last(), keep);
        if ex[items.len() - 1] == keep {
            rest.push(items.last())
        } else {
            rest
        }
    }
}

/// Partition totality: the three classes of a batch add up to the whole
/// batch. Their sizes sum to the batch size, and together they hold
/// exactly the batch's items — nothing is dropped and nothing is
/// duplicated.
pub proof fn lemma_partition_total(items: Seq<Seq<char>>, ex: Seq<bool>)
    requires
        ex.len() == items.len(),
    ensures
        select_class(items, ex, UriKind::FilePath).len() + select_class(
            items,
            ex,
            UriKind::RemoteUrl,
        ).len() + select_class(items, ex, UriKind::Invalid).len() == items.len(),
        select_class(items, ex, UriKind::FilePath).to_multiset().add(
            select_class(items, ex, UriKind::RemoteUrl).to_multiset(),
        ).add(select_class(items, ex, UriKind::Invalid).to_multiset()) == items.to_multiset(),
    decreases items.len(),
{
    broadcast use vstd::seq_lib::group_to_multiset_ensures;
    broadcast use vstd::multiset::group_multiset_axioms;

    if items.len() == 0 {
        assert(items.to_multiset() =~= Multiset::<Seq<char>>::empty());
        assert(select_class(items, ex, UriKind::FilePath).to_multiset().add(
            select_class(items, ex, UriKind::RemoteUrl).to_multiset(),
        ).add(select_class(items, ex, UriKind::Invalid).to_multiset())
            =~= Multiset::<Seq<char>>::empty());
    } else {
        let rest = items.drop_last();
        let rest_ex = ex.drop_last();
        let x = items.last();
        lemma_partition_total(rest, rest_ex);
        assert(items =~= rest.push(x));
        assert(items.to_multiset() == rest.to_multiset().insert(x));
        let fa = select_class(rest, rest_ex, UriKind::FilePath);
        let ur = select_class(rest, rest_ex, UriKind::RemoteUrl);
        let iv = select_class(rest, rest_ex, UriKind::Invalid);
        let k = spec_kind(x, ex.last());
        if k == UriKind::FilePath {
            assert(fa.push(x).to_multiset() == fa.to_multiset().insert(x));
            assert(fa.to_multiset().insert(x).add(ur.to_multiset()).add(iv.to_multiset())
                =~= fa.to_multiset().add(ur.to_multiset()).add(iv.to_multiset()).insert(x));
        } else if k == UriKind::RemoteUrl {
            assert(ur.push(x).to_multiset() == ur.to_multiset().insert(x));
            assert(fa.to_multiset().add(ur.to_multiset().insert(x)).add(iv.to_multiset())
                =~= fa.to_multiset().add(ur.to_multiset()).add(iv.to_multiset()).insert(x));
        } else {
            assert(iv.push(x).to_multiset() == iv.to_multiset().insert(x));
            assert(fa.to_multiset().add(ur.to_multiset()).add(iv.to_multiset().insert(x))
                =~= fa.to_multiset().add(ur.to_multiset()).add(iv.to_multiset()).insert(x));
        }
    }
}

/// Classification correctness: an item on disk is a file path even when it
/// also has URL syntax; an item not on disk with URL syntax is a remote
/// URL; anything else is invalid.
pub proof fn lemma_classification_correct(s: Seq<char>, on_disk: bool)
    ensures
        on_disk ==> spec_kind(s, on_disk) == UriKind::FilePath,
        !on_disk && url_syntax_ok(s) ==> spec_kind(s, on_disk) == UriKind::RemoteUrl,
        !on_disk && !url_syntax_ok(s) ==> spec_kind(s, on_disk) == UriKind::Invalid,
{
}

/// Every item of a batch stands in the class of its own kind: the item at
/// position `k` is a member of the selection for its kind.
pub proof fn lemma_item_in_its_class(items: Seq<Seq<char>>, ex: Seq<bool>, k: int)
    requires
        ex.len() == items.len(),
        0 <= k < items.len(),
    ensures
        select_class(items, ex, spec_kind(items[k], ex[k])).contains(items[k]),
    decreases items.len(),
{
    let cls = select_class(items, ex, spec_kind(items[k], ex[k]));
    if k == items.len() - 1 {
        assert(cls.last() == items[k]);
    } else {
        lemma_item_in_its_class(items.drop_last(), ex.drop_last(), k);
        let sub = select_class(
            items.drop_last(),
            ex.drop_last(),
            spec_kind(items[k], ex[k]),
        );
        let j = choose|j: int| 0 <= j < sub.len() && sub[j] == items[k];
        if spec_kind(items.last(), ex.last()) == spec_kind(items[k], ex[k]) {
            assert(cls == sub.push(items.last()));
            assert(cls[j] == items[k]);
        } else {
            assert(cls == sub);
        }
    }
}

/// A batch split into the three classes, each in input order.
pub struct Classified {
    pub files: Vec<String>,
    pub urls: Vec<String>,
    pub invalid: Vec<String>,
}

/// Whether `c` is the classification of `items`, with `ex` recording which
/// items were found on disk.
pub open spec fn is_classification(c: &Classified, items: Seq<Seq<char>>, ex: Seq<bool>) -> bool {
    &&& ex.len() == items.len()
    &&& c.files.deep_view() == select_class(items, ex, UriKind::FilePath)
    &&& c.urls.deep_view() == select_class(items, ex, UriKind::RemoteUrl)
    &&& c.invalid.deep_view() == select_class(items, ex, UriKind::Invalid)
}

/// Split a batch into existing file paths, remote URLs and invalid items,
/// existence checked against the filesystem; every item lands in exactly
/// one class and each class keeps the input order.
pub fn classify_batch(items: &Vec<String>) -> (c: Classified)
    ensures
        exists|ex: Seq<bool>| is_classification(&c, items.deep_view(), ex),
{
    let mut files: Vec<String> = Vec::new();
    let mut urls: Vec<String> = Vec::new();
    let mut invalid: Vec<String> = Vec::new();
    let ghost mut ex: Seq<bool> = Seq::empty();
    let mut i: usize = 0;
    proof {
        assert(items.deep_view().take(0) =~= Seq::<Seq<char>>::empty());
    }
    while i < items.len()
        invariant
            i <= items.len(),
            ex.len() == i,
            files.deep_view() == select_class(items.deep_view().take(i as int), ex, UriKind::FilePath),
            urls.deep_view() == select_class(items.deep_view().take(i as int), ex, UriKind::RemoteUrl),
            invalid.deep_view() == select_class(items.deep_view().take(i as int), ex, UriKind::Invalid),
        decreases items.len() - i,
    {
        let it = &items[i];
        let ghost old_files = files.deep_view();
        let ghost old_urls = urls.deep_view();
        let ghost old_invalid = invalid.deep_view();
        let on_disk = path_exists(it.as_str());
        if on_disk {
            files.push(it.clone());
        } else if parses_as_url(it.as_str()) {
            urls.push(it.clone());
        } else {
            invalid.push(it.clone());
        }
        proof {
            let pre = items.deep_view().take(i as int);
            let post = items.deep_view().take(i + 1);
            let old_ex = ex;
            ex = ex.push(on_disk);
            assert(post.drop_last() =~= pre);
            assert(ex.drop_last() =~= old_ex);
            assert(post.last() == items.deep_view()[i as int]);
            assert(items.deep_view()[i as int] == it@);
            assert(files.deep_view() =~= if spec_kind(it@, on_disk) == UriKind::FilePath {
                old_files.push(it@)
            } else {
                old_files
            });
            assert(urls.deep_view() =~= if spec_kind(it@, on_disk) == UriKind::RemoteUrl {
                old_urls.push(it@)
            } else {
                old_urls
            });
            assert(invalid.deep_view() =~= if spec_kind(it@, on_disk) == UriKind::Invalid {
                old_invalid.push(it@)
            } else {
                old_invalid
            });
        }
        i = i + 1;
    }
    let c = Classified { files, urls, invalid };
    proof {
        assert(items.deep_view().take(items.len() as int) =~= items.deep_view());
        assert(is_classification(&c, items.deep_view(), ex));
    }
    c
}

/// Both halves of a split by existence add up to the whole batch.
pub proof fn lemma_split_total(items: Seq<Seq<char>>, ex: Seq<bool>)
    requires
        ex.len() == items.len(),
    ensures
        filter_by_flag(items, ex, true).len() + filter_by_flag(items, ex, false).len()
            == items.len(),
        filter_by_flag(items, ex, true).to_multiset().add(
            filter_by_flag(items, ex, false).to_multiset(),
        ) == items.to_multiset(),
    decreases items.len(),
{
    broadcast use vstd::seq_lib::group_to_multiset_ensures;
    broadcast use vstd::multiset::group_multiset_axioms;

    if items.len() == 0 {
        assert(items.to_multiset() =~= Multiset::<Seq<char>>::empty());
        assert(filter_by_flag(items, ex, true).to_multiset().add(
            filter_by_flag(items, ex, false).to_multiset(),
        ) =~= Multiset::<Seq<char>>::empty());
    } else {
        let rest = items.drop_last();
        let rest_ex = ex.drop_last();
        let x = items.last();
        lemma_split_total(rest, rest_ex);
        assert(items =~= rest.push(x));
        assert(items.to_multiset() == rest.to_multiset().insert(x));
        let yes = filter_by_flag(rest, rest_ex, true);
        let no = filter_by_flag(rest, rest_ex, false);
        if ex.last() {
            assert(yes.push(x).to_multiset() == yes.to_multiset().insert(x));
            assert(yes.to_multiset().insert(x).add(no.to_multiset()) =~= yes.to_multiset().add(
                no.to_multiset(),
            ).insert(x));
        } else {
            assert(no.push(x).to_multiset() == no.to_multiset().insert(x));
            assert(yes.to_multiset().add(no.to_multiset().insert(x)) =~= yes.to_multiset().add(
                no.to_multiset(),
            ).insert(x));
        }
    }
}

/// Split a batch into existing file paths and everything else, as the
/// ephemeral-upload path does: no URL check, anything not on disk is
/// reported as invalid.
pub fn split_existing(items: &Vec<String>) -> (r: (Vec<String>, Vec<String>))
    ensures
        exists|ex: Seq<bool>|
            {
                &&& ex.len() == items.deep_view().len()
                &&& r.0.deep_view() == filter_by_flag(items.deep_view(), ex, true)
                &&& r.1.deep_view() == filter_by_flag(items.deep_view(), ex, false)
            },
{
    let mut files: Vec<String> = Vec::new();
    let mut rest: Vec<String> = Vec::new();
    let ghost mut ex: Seq<bool> = Seq::empty();
    let mut i: usize = 0;
    proof {
        assert(items.deep_view().take(0) =~= Seq::<Seq<char>>::empty());
    }
    while i < items.len()
        invariant
            i <= items.len(),
            ex.len() == i,
            files.deep_view() == filter_by_flag(items.deep_view().take(i as int), ex, true),
            rest.deep_view() == filter_by_flag(items.deep_view().take(i as int), ex, false),
        decreases items.len() - i,
    {
        let it = &items[i];
        let ghost old_files = files.deep_view();
        let ghost old_rest = rest.deep_view();
        let on_disk = path_exists(it.as_str());
        if on_disk {
            files.push(it.clone());
        } else {
            rest.push(it.clone());
        }
        proof {
            let pre = items.deep_view().take(i as int);
            let post = items.deep_view().take(i + 1);
            let old_ex = ex;
            ex = ex.push(on_disk);
            assert(post.drop_last() =~= pre);
            assert(ex.drop_last() =~= old_ex);
            assert(post.last() == items.deep_view()[i as int]);
            assert(items.deep_view()[i as int] == it@);
            assert(files.deep_view() =~= if on_disk {
                old_files.push(it@)
            } else {
                old_files
            });
            assert(rest.deep_view() =~= if !on_disk {
                old_rest.push(it@)
            } else {
                old_rest
            });
        }
        i = i + 1;
    }
    let r = (files, rest);
    proof {
        assert(items.deep_view().take(items.len() as int) =~= items.deep_view());
        assert(r.0.deep_view() == filter_by_flag(items.deep_view(), ex, true));
        assert(r.1.deep_view() == filter_by_flag(items.deep_view(), ex, false));
    }
    r
}

} // verus!
