use crate::errors::{calculate_thread_error, outcome_view, FogSpaceError};
use crate::ext::{paths_keep_texts, paths_of_texts, ToPathBufs};
use crate::models::common_params::{DeleteMethodRef, SimilarityPresetDef};
use crate::routers::similar_image::SearchParams;
use image::imageops::FilterType;
use image_hasher::HashAlg;
use std::path::PathBuf;
use vstd::prelude::*;

verus! {

/// The texts of a list of strings.
pub open spec fn texts_of(items: Seq<String>) -> Seq<Seq<char>> {
    items.map_values(|s: String| s@)
}

/// A list of texts written one after another, separated by commas.
pub open spec fn comma_joined(items: Seq<Seq<char>>) -> Seq<char>
    decreases items.len(),
{
    if items.len() == 0 {
        Seq::empty()
    } else if items.len() == 1 {
        items[0]
    } else {
        comma_joined(items.drop_last()) + ","@ + items.last()
    }
}

/// Splits the rest of a text at its commas; `current` is the piece read so
/// far.
pub open spec fn split_from(text: Seq<char>, current: Seq<char>) -> Seq<Seq<char>>
    decreases text.len(),
{
    if text.len() == 0 {
        seq![current]
    } else if text[0] == ',' {
        seq![current] + split_from(text.drop_first(), Seq::empty())
    } else {
        split_from(text.drop_first(), current.push(text[0]))
    }
}

/// The pieces of a text between its commas.
pub open spec fn split_at_commas(text: Seq<char>) -> Seq<Seq<char>> {
    split_from(text, Seq::empty())
}

/// A text without a comma is read as one piece.
proof fn lemma_split_comma_free(text: Seq<char>, current: Seq<char>)
    requires
        !text.contains(','),
    ensures
        split_from(text, current) == seq![current + text],
    decreases text.len(),
{
    if text.len() == 0 {
        assert(current + text == current);
    } else {
        assert(text[0] != ',') by {
            assert(text.contains(text[0]));
        }
        let rest = text.drop_first();
        assert(!rest.contains(',')) by {
            if rest.contains(',') {
                let k = choose|k: int| 0 <= k < rest.len() && rest[k] == ',';
                assert(text[k + 1] == ',');
            }
        }
        lemma_split_comma_free(rest, current.push(text[0]));
        assert(current.push(text[0]) + rest == current + text);
    }
}

/// Splitting `a , b` gives the pieces of `a` followed by the pieces of `b`.
proof fn lemma_split_concat(a: Seq<char>, b: Seq<char>, current: Seq<char>)
    ensures
        split_from(a + seq![','] + b, current) == split_from(a, current) + split_from(
            b,
            Seq::empty(),
        ),
    decreases a.len(),
{
    let whole = a + seq![','] + b;
    if a.len() == 0 {
        assert(whole[0] == ',');
        assert(whole.drop_first() == b);
    } else {
        assert(whole[0] == a[0]);
        assert(whole.drop_first() == a.drop_first() + seq![','] + b);
        if a[0] == ',' {
            lemma_split_concat(a.drop_first(), b, Seq::empty());
        } else {
            lemma_split_concat(a.drop_first(), b, current.push(a[0]));
        }
    }
}

/// The allowed extensions, once joined, split at the commas back into the
/// same list: this holds for every non-empty list whose extensions hold no
/// comma.
pub proof fn lemma_joined_extensions_split_back(items: Seq<Seq<char>>)
    requires
        items.len() > 0,
        forall|i: int| 0 <= i < items.len() ==> !(#[trigger] items[i]).contains(','),
    ensures
        split_at_commas(comma_joined(items)) == items,
    decreases items.len(),
{
    reveal_strlit(",");
    if items.len() == 1 {
        lemma_split_comma_free(items[0], Seq::empty());
        assert(Seq::<char>::empty() + items[0] == items[0]);
        assert(seq![items[0]] == items);
    } else {
        let init = items.drop_last();
        assert forall|i: int| 0 <= i < init.len() implies !(#[trigger] init[i]).contains(',') by {
            assert(init[i] == items[i]);
        }
        lemma_joined_extensions_split_back(init);
        assert(","@ == seq![',']);
        lemma_split_concat(comma_joined(init), items.last(), Seq::empty());
        lemma_split_comma_free(items.last(), Seq::empty());
        assert(Seq::<char>::empty() + items.last() == items.last());
        assert(init + seq![items.last()] == items);
    }
}

/// Writes a list of strings separated by commas, as `[String]::join(",")`.
pub fn join_with_commas(items: &Vec<String>) -> (joined: String)
    ensures
        joined@ == comma_joined(texts_of(items@)),
{
    let mut joined = String::new();
    let n = items.len();
    let ghost texts = texts_of(items@);
    for i in 0..n
        invariant
            n == items.len(),
            texts == texts_of(items@),
            joined@ == comma_joined(texts.take(i as int)),
    {
        assert(texts.take(i + 1).drop_last() == texts.take(i as int));
        if i != 0 {
            joined.append(",");
        }
        joined.append(items[i].as_str());
    }
    assert(texts.take(n as int) == texts);
    joined
}

/// Everything a similar-image search is configured with, derived from a
/// request.
pub struct SimilarImagesSettings {
    pub similarity_preset: SimilarityPresetDef,
    pub hash_size: u8,
    pub hash_algorithm: HashAlg,
    pub image_filter: FilterType,
    pub exclude_images_with_same_size: bool,
    pub ignore_hard_links: bool,
    pub thread_number: usize,
    pub included_directories: Vec<PathBuf>,
    pub excluded_directories: Option<Vec<PathBuf>>,
    pub excluded_items: Option<Vec<String>>,
    pub recursive_search: bool,
    pub allowed_extensions: Option<String>,
    pub use_cache: bool,
    pub minimal_file_size: u64,
    pub maximal_file_size: u64,
    pub delete_method: DeleteMethodRef,
    pub dry_run: bool,
}

/// The paths of an optional list of texts.
pub open spec fn optional_paths(texts: Option<Vec<String>>) -> Option<Seq<PathBuf>> {
    match texts {
        Some(t) => Some(paths_of_texts(t@)),
        None => None,
    }
}

/// The paths of an optional list of paths.
pub open spec fn optional_path_list(paths: Option<Vec<PathBuf>>) -> Option<Seq<PathBuf>> {
    match paths {
        Some(p) => Some(p@),
        None => None,
    }
}

/// The comma-joined text of an optional list of texts.
pub open spec fn optional_joined(items: Option<Vec<String>>) -> Option<Seq<char>> {
    match items {
        Some(i) => Some(comma_joined(texts_of(i@))),
        None => None,
    }
}

/// The text of an optional string.
pub open spec fn optional_text(s: Option<String>) -> Option<Seq<char>> {
    match s {
        Some(t) => Some(t@),
        None => None,
    }
}

/// How a request configures the search. The hash size is cut to its low
/// eight bits, hard links are ignored unless the request allows them, the
/// directories become paths and the allowed extensions one comma-separated
/// text; every other setting is passed on as it is.
pub fn similar_images_settings(req: SearchParams) -> (s: SimilarImagesSettings)
    ensures
        s.similarity_preset == req.similarity_preset,
        s.hash_size as int == req.hash_size as int % 256,
        s.hash_algorithm == req.hash_algorithm,
        s.image_filter == req.image_filter,
        s.exclude_images_with_same_size == req.ignore_same_size,
        s.ignore_hard_links == !req.allow_hard_links,
        s.thread_number == req.common_items.thread_number as usize,
        s.included_directories@ == paths_of_texts(req.common_items.directories@),
        paths_keep_texts(req.common_items.directories@, s.included_directories@),
        match (s.excluded_directories, req.common_items.excluded_directories) {
            (Some(paths), Some(texts)) => paths_keep_texts(texts@, paths@),
            _ => true,
        },
        optional_path_list(s.excluded_directories) == optional_paths(
            req.common_items.excluded_directories,
        ),
        s.excluded_items == req.common_items.excluded_items,
        s.recursive_search == req.common_items.is_recursive,
        optional_text(s.allowed_extensions) == optional_joined(
            req.common_items.allowed_extensions,
        ),
        s.use_cache == req.common_items.use_cache,
        s.minimal_file_size == req.minimal_file_size,
        s.maximal_file_size == req.maximal_file_size,
        s.delete_method == req.delete_method,
        s.dry_run == req.dry_run,
{
    let h = req.hash_size;
    let hash_size = h as u8;
    assert(hash_size as u32 == h % 256) by (bit_vector)
        requires
            hash_size == h as u8,
    ;
    let included_directories = req.common_items.directories.to_pathbufs();
    let excluded_directories = match &req.common_items.excluded_directories {
        Some(dirs) => Some(dirs.to_pathbufs()),
        None => None,
    };
    let allowed_extensions = match &req.common_items.allowed_extensions {
        Some(exts) => Some(join_with_commas(exts)),
        None => None,
    };
    SimilarImagesSettings {
        similarity_preset: req.similarity_preset,
        hash_size,
        hash_algorithm: req.hash_algorithm,
        image_filter: req.image_filter,
        exclude_images_with_same_size: req.ignore_same_size,
        ignore_hard_links: !req.allow_hard_links,
        thread_number: req.common_items.thread_number as usize,
        included_directories,
        excluded_directories,
        excluded_items: req.common_items.excluded_items,
        recursive_search: req.common_items.is_recursive,
        allowed_extensions,
        use_cache: req.common_items.use_cache,
        minimal_file_size: req.minimal_file_size,
        maximal_file_size: req.maximal_file_size,
        delete_method: req.delete_method,
        dry_run: req.dry_run,
    }
}

/// What the search thread gave: its value, or (`None`, when the thread could
/// not be started or ended without a value) the error answered for it.
pub fn thread_outcome<T>(outcome: Option<T>) -> (r: Result<T, FogSpaceError>)
    ensures
        outcome_view(r) == match outcome {
            Some(v) => Ok(v),
            None => Err(calculate_thread_error()),
        },
{
    match outcome {
        Some(v) => Ok(v),
        None => Err(FogSpaceError::calculate_thread_failed()),
    }
}

} // verus!
