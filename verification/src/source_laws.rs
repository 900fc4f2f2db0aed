//! What holds of the names of state records.

use vstd::prelude::*;
use crate::source::{
    blob_workspace, file_workspace, key_lead, key_workspace, state_file, state_key, state_suffix,
    SourceView,
};
use crate::text::{trim_end, trim_start, without_prefix, without_suffix};

verus! {

/// Whether a text does not end with `/`.
pub open spec fn no_slash_at_end(s: Seq<char>) -> bool {
    s.len() == 0 || s.last() != '/'
}

/// Whether a text does not start with `/`.
pub open spec fn no_slash_in_front(s: Seq<char>) -> bool {
    s.len() == 0 || s.first() != '/'
}

/// Whether the state record of `workspace` is found again under its name when
/// `source` is listed. In a bucket every record is. A state directory needs a
/// workspace with a name; a container needs a prefix with at most one `/` at
/// its end and a workspace that does not start with `/`.
pub open spec fn listable(source: SourceView, workspace: Seq<char>) -> bool {
    match source {
        SourceView::Mock { root } => workspace.len() > 0,
        SourceView::S3 { bucket, prefix } => true,
        SourceView::Gcs { bucket, prefix } => true,
        SourceView::Azure { container, prefix } => no_slash_in_front(workspace) && (prefix
            is Some ==> no_slash_at_end(prefix->0) || no_slash_at_end(prefix->0.drop_last())),
    }
}

proof fn lemma_trim_end_plain(s: Seq<char>)
    requires
        no_slash_at_end(s),
    ensures
        trim_end(s, '/') == s,
{
}

proof fn lemma_trim_start_plain(s: Seq<char>)
    requires
        no_slash_in_front(s),
    ensures
        trim_start(s, '/') == s,
{
}

proof fn lemma_suffix_off(stem: Seq<char>, suffix: Seq<char>)
    ensures
        without_suffix(stem + suffix, suffix) == Some(stem),
        suffix.is_suffix_of(stem + suffix),
{
    let s = stem + suffix;
    assert(s.subrange(s.len() - suffix.len(), s.len() as int) =~= suffix);
    assert(s.subrange(0, s.len() - suffix.len()) =~= stem);
}

proof fn lemma_prefix_off(prefix: Seq<char>, rest: Seq<char>)
    ensures
        without_prefix(prefix + rest, prefix) == Some(rest),
{
    let s = prefix + rest;
    assert(s.subrange(0, prefix.len() as int) =~= prefix);
    assert(s.subrange(prefix.len() as int, s.len() as int) =~= rest);
}

/// A state file is listed under the name of its workspace.
pub proof fn lemma_file_found_again(workspace: Seq<char>)
    ensures
        file_workspace(state_file(workspace)) == if workspace.len() > 0 {
            Some(workspace)
        } else {
            None
        },
{
    lemma_suffix_off(workspace, state_suffix());
}

/// An object of a bucket is listed under the name of its workspace, whatever
/// the prefix and the workspace are: listing takes from the front of a key
/// what storing has put there.
pub proof fn lemma_key_found_again(prefix: Option<Seq<char>>, workspace: Seq<char>)
    ensures
        key_workspace(state_key(prefix, workspace), prefix) == Some(workspace),
{
    let sfx = state_suffix();
    match prefix {
        Some(p) => {
            let lead = key_lead(p);
            let key = lead + workspace + sfx;
            lemma_suffix_off(lead + workspace, sfx);
            assert(key =~= lead + (workspace + sfx));
            lemma_prefix_off(lead, workspace + sfx);
            lemma_suffix_off(workspace, sfx);
        },
        None => {
            lemma_suffix_off(workspace, sfx);
        },
    }
}

/// A key that lies under the prefix is listed under the very workspace whose
/// record is fetched from that key.
pub proof fn lemma_listed_key_is_fetched(prefix: Option<Seq<char>>, key: Seq<char>)
    requires
        state_suffix().is_suffix_of(key),
        prefix is Some ==> key_lead(prefix->0).is_prefix_of(key),
    ensures
        key_workspace(key, prefix) is Some,
        state_key(prefix, key_workspace(key, prefix)->0) == key,
{
    let sfx = state_suffix();
    match prefix {
        Some(p) => {
            let lead = key_lead(p);
            assert(key.len() >= lead.len() + sfx.len()) by {
                reveal_strlit(".tfstate");
                if key.len() < lead.len() + sfx.len() {
                    let at = lead.len() - 1;
                    let within = at - (key.len() - sfx.len());
                    assert(lead[at] == '/');
                    assert(key.subrange(0, lead.len() as int)[at] == key[at]);
                    assert(key.subrange(key.len() - sfx.len(), key.len() as int)[within]
                        == key[at]);
                    assert(sfx[within] == '/');
                }
            }
            let rest = key.subrange(lead.len() as int, key.len() as int);
            assert(key =~= lead + rest);
            assert(rest.subrange(rest.len() - sfx.len(), rest.len() as int) =~= key.subrange(
                key.len() - sfx.len(),
                key.len() as int,
            ));
            let stem = rest.subrange(0, rest.len() - sfx.len());
            assert(rest =~= stem + sfx);
            assert(key =~= lead + stem + sfx);
        },
        None => {
            let stem = key.subrange(0, key.len() - sfx.len());
            assert(key =~= stem + sfx);
        },
    }
}

/// A blob of a container is listed under the name of its workspace, where the
/// prefix ends with at most one `/` and the workspace does not start with `/`.
pub proof fn lemma_blob_found_again(prefix: Option<Seq<char>>, workspace: Seq<char>)
    requires
        no_slash_in_front(workspace),
        prefix is Some ==> no_slash_at_end(prefix->0) || no_slash_at_end(prefix->0.drop_last()),
    ensures
        blob_workspace(state_key(prefix, workspace), prefix) == Some(workspace),
{
    let sfx = state_suffix();
    lemma_trim_start_plain(workspace);
    match prefix {
        Some(p) => {
            if no_slash_at_end(p) {
                lemma_trim_end_plain(p);
                let name = p + seq!['/'] + workspace + sfx;
                assert(name =~= (p + seq!['/'] + workspace) + sfx);
                lemma_suffix_off(p + seq!['/'] + workspace, sfx);
                assert(name =~= p + (seq!['/'] + workspace + sfx));
                lemma_prefix_off(p, seq!['/'] + workspace + sfx);
                assert(seq!['/'] + workspace + sfx =~= (seq!['/'] + workspace) + sfx);
                lemma_suffix_off(seq!['/'] + workspace, sfx);
                let stem = seq!['/'] + workspace;
                assert(stem.first() == '/');
                assert(stem.drop_first() =~= workspace);
            } else {
                let q = p.drop_last();
                assert(p =~= q + seq!['/']);
                lemma_trim_end_plain(q);
                assert(trim_end(p, '/') == q);
                let name = q + seq!['/'] + workspace + sfx;
                assert(name =~= (q + seq!['/'] + workspace) + sfx);
                lemma_suffix_off(q + seq!['/'] + workspace, sfx);
                assert(name =~= p + (workspace + sfx));
                lemma_prefix_off(p, workspace + sfx);
                lemma_suffix_off(workspace, sfx);
            }
        },
        None => {
            let name = workspace + sfx;
            lemma_suffix_off(workspace, sfx);
            assert(name =~= Seq::<char>::empty() + name);
            lemma_prefix_off(Seq::<char>::empty(), name);
        },
    }
}

/// Entries are trimmed as they were stored: listing a state source shows the
/// record that was stored for a workspace under that workspace's name.
pub proof fn lemma_record_found_again(source: SourceView, workspace: Seq<char>)
    requires
        listable(source, workspace),
    ensures
        source.workspace_of(source.location_of(workspace)) == Some(workspace),
{
    match source {
        SourceView::Mock { root } => {
            lemma_file_found_again(workspace);
        },
        SourceView::S3 { bucket, prefix } => {
            lemma_key_found_again(prefix, workspace);
        },
        SourceView::Gcs { bucket, prefix } => {
            lemma_key_found_again(prefix, workspace);
        },
        SourceView::Azure { container, prefix } => {
            lemma_blob_found_again(prefix, workspace);
        },
    }
}

} // verus!
