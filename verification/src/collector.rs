//! Source collection: which of the files that a directory walk found are
//! source files, and how their contents are laid out in one text.
//!
//! Walking the tree, honouring its ignore rules and reading the files is the
//! host's part. It reports what it met as a list of [`WalkItem`]s, in the
//! order of the walk.

use vstd::prelude::*;
use vstd::string::StringExecFns;
use crate::paths::{
    final_name, lemma_part_of_itself, lemma_plainly_below, name_extension, part_of,
    path_extension, plain_path, plainly_below, rest_below, strip_root,
};
use crate::text::{concat2, lowercase, lowercase_of, opt_view, same_text, texts};

verus! {

/// The extensions of the files that are collected, in lower case.
pub open spec fn source_extension(lower: Seq<char>) -> bool {
    ||| lower == "ts"@
    ||| lower == "tsx"@
    ||| lower == "js"@
    ||| lower == "jsx"@
    ||| lower == "rs"@
    ||| lower == "py"@
    ||| lower == "go"@
    ||| lower == "java"@
    ||| lower == "cpp"@
    ||| lower == "c"@
    ||| lower == "h"@
}

/// The text between two file blocks.
pub open spec fn separator() -> Seq<char> {
    "\n---\n\n"@
}

/// The block that stands for one file: a header line with its path, then its
/// content, then a line break.
pub open spec fn block_text(path: Seq<char>, content: Seq<char>) -> Seq<char> {
    "// File: "@ + path + "\n"@ + content + "\n"@
}

/// The blocks in order, with the separator between each two of them.
pub open spec fn joined(blocks: Seq<Seq<char>>) -> Seq<char>
    decreases blocks.len(),
{
    if blocks.len() == 0 {
        Seq::empty()
    } else if blocks.len() == 1 {
        blocks[0]
    } else {
        blocks[0] + separator() + joined(blocks.drop_first())
    }
}

/// Whether an extension, already in lower case, is one of the collected ones.
pub fn is_normalized_source_extension(lower: &str) -> (r: bool)
    ensures
        r == source_extension(lower@),
{
    same_text(lower, "ts") || same_text(lower, "tsx") || same_text(lower, "js") || same_text(
        lower,
        "jsx",
    ) || same_text(lower, "rs") || same_text(lower, "py") || same_text(lower, "go") || same_text(
        lower,
        "java",
    ) || same_text(lower, "cpp") || same_text(lower, "c") || same_text(lower, "h")
}

/// Whether an extension is one of the collected ones, whatever its case.
pub fn is_source_extension(extension: &str) -> (r: bool)
    ensures
        r == source_extension(lowercase_of(extension@)),
{
    let lower = lowercase(extension);
    is_normalized_source_extension(lower.as_str())
}

/// One file system entry that the walk met.
#[derive(Debug, Clone)]
pub struct SourceFile {
    /// Its path below the directory that is collected.
    pub relative_path: String,
    /// Its extension, without the dot, if it has one.
    pub extension: Option<String>,
    /// Whether it is a regular file.
    pub is_file: bool,
    /// Its content; `None` when it was not read or could not be read.
    pub content: Option<String>,
}

/// What a [`SourceFile`] holds, as mathematical values.
pub struct SourceFileModel {
    pub relative_path: Seq<char>,
    pub extension: Option<Seq<char>>,
    pub is_file: bool,
    pub content: Option<Seq<char>>,
}

impl SourceFileModel {
    /// A regular file with one of the collected extensions.
    pub open spec fn wanted(self) -> bool {
        self.is_file && self.extension is Some && source_extension(
            lowercase_of(self.extension->0),
        )
    }

    /// A wanted file whose content is at hand.
    pub open spec fn included(self) -> bool {
        self.wanted() && self.content is Some
    }

    /// The entry at `path` before it is read, given what is left of the
    /// path without the root, if the root is a prefix of it, and the
    /// extension.
    pub open spec fn described(
        path: Seq<char>,
        stripped: Option<Seq<char>>,
        extension: Option<Seq<char>>,
        is_file: bool,
    ) -> SourceFileModel {
        SourceFileModel {
            relative_path: match stripped {
                Some(rest) => rest,
                None => path,
            },
            extension,
            is_file,
            content: None,
        }
    }

    /// The block that stands for the file.
    pub open spec fn block(self) -> Seq<char> {
        block_text(self.relative_path, self.content->0)
    }
}

impl View for SourceFile {
    type V = SourceFileModel;

    open spec fn view(&self) -> SourceFileModel {
        SourceFileModel {
            relative_path: self.relative_path@,
            extension: opt_view(self.extension),
            is_file: self.is_file,
            content: opt_view(self.content),
        }
    }
}

impl SourceFile {
    /// Makes the entry at `path` from what the path functions found: what
    /// is left of the path without the root (`None` where the root is no
    /// prefix of it, and the path then stands for itself) and the extension.
    pub fn from_parts(
        path: &str,
        stripped: Option<String>,
        extension: Option<String>,
        is_file: bool,
    ) -> (r: SourceFile)
        ensures
            r@ == SourceFileModel::described(path@, opt_view(stripped), opt_view(extension), is_file),
    {
        let relative_path = match stripped {
            Some(rest) => rest,
            None => String::from_str(path),
        };
        SourceFile { relative_path, extension, is_file, content: None }
    }

    /// Describes the entry at `path`, met while walking `root`, before it is
    /// read. The relative path and the extension are those that the
    /// platform's path rules find. Both are stretches of `path`, and on a
    /// plain path they are what follows the root and the extension of the
    /// last name.
    pub fn describe(path: &str, root: &str, is_file: bool) -> (r: SourceFile)
        ensures
            r@.is_file == is_file,
            r@.content is None,
            part_of(path@, r@.relative_path),
            r@.extension matches Some(e) ==> !e.contains('.') && part_of(path@, seq!['.'] + e),
            plain_path(path@) ==> r@.extension == name_extension(final_name(path@)),
            plainly_below(path@, root@) ==> r@ == SourceFileModel::described(
                path@,
                Some(rest_below(path@, root@)),
                name_extension(final_name(rest_below(path@, root@))),
                is_file,
            ),
    {
        proof {
            lemma_part_of_itself(path@);
            if plainly_below(path@, root@) {
                lemma_plainly_below(path@, root@);
            }
        }
        SourceFile::from_parts(path, strip_root(path, root), path_extension(path), is_file)
    }

    /// Whether the entry is a regular file with one of the collected
    /// extensions, so that its content is worth reading.
    pub fn is_wanted(&self) -> (r: bool)
        ensures
            r == self@.wanted(),
    {
        if !self.is_file {
            return false;
        }
        match &self.extension {
            Some(extension) => is_source_extension(extension.as_str()),
            None => false,
        }
    }

    /// Whether the entry becomes a block of the collected text.
    pub fn is_included(&self) -> (r: bool)
        ensures
            r == self@.included(),
    {
        self.is_wanted() && self.content.is_some()
    }
}

/// What a directory walk yields at each step: an entry, or the description
/// of an error.
#[derive(Debug, Clone)]
pub enum WalkItem {
    Entry(SourceFile),
    Failure(String),
}

/// What a [`WalkItem`] holds, as mathematical values.
pub enum WalkItemModel {
    Entry(SourceFileModel),
    Failure(Seq<char>),
}

impl View for WalkItem {
    type V = WalkItemModel;

    open spec fn view(&self) -> WalkItemModel {
        match self {
            WalkItem::Entry(f) => WalkItemModel::Entry(f@),
            WalkItem::Failure(m) => WalkItemModel::Failure(m@),
        }
    }
}

/// The views of the items of a walk, in order.
pub open spec fn walk_view(items: Seq<WalkItem>) -> Seq<WalkItemModel> {
    items.map_values(|w: WalkItem| w@)
}

/// Why a collection failed.
#[derive(Debug, Clone)]
pub enum CollectError {
    /// The directory does not exist; the field is its path.
    NotFound(String),
    /// The walk reported an error; the field is its description.
    Walk(String),
}

/// What a [`CollectError`] holds, as mathematical values.
pub enum CollectErrorModel {
    NotFound(Seq<char>),
    Walk(Seq<char>),
}

impl CollectErrorModel {
    /// The message that describes the error.
    pub open spec fn message(self) -> Seq<char> {
        match self {
            CollectErrorModel::NotFound(dir) => "Source directory does not exist: "@ + dir,
            CollectErrorModel::Walk(description) => "Walkdir error: "@ + description,
        }
    }
}

impl View for CollectError {
    type V = CollectErrorModel;

    open spec fn view(&self) -> CollectErrorModel {
        match self {
            CollectError::NotFound(dir) => CollectErrorModel::NotFound(dir@),
            CollectError::Walk(description) => CollectErrorModel::Walk(description@),
        }
    }
}

impl CollectError {
    /// The message that describes the error.
    pub fn message(&self) -> (r: String)
        ensures
            r@ == self@.message(),
    {
        match self {
            CollectError::NotFound(dir) => concat2("Source directory does not exist: ", dir.as_str()),
            CollectError::Walk(description) => concat2("Walkdir error: ", description.as_str()),
        }
    }
}

/// The test that picks the entries of a walk that become blocks.
pub open spec fn kept() -> spec_fn(WalkItemModel) -> bool {
    |w: WalkItemModel| w matches WalkItemModel::Entry(f) && f.included()
}

/// The blocks of a walk: one for each included entry, in the order of the walk.
pub open spec fn blocks_of(walk: Seq<WalkItemModel>) -> Seq<Seq<char>> {
    walk.filter(kept()).map_values(|w: WalkItemModel| w->Entry_0.block())
}

/// The description of the first error of a walk, if it has one.
pub open spec fn first_failure(walk: Seq<WalkItemModel>) -> Option<Seq<char>>
    decreases walk.len(),
{
    if walk.len() == 0 {
        None
    } else {
        match walk[0] {
            WalkItemModel::Failure(description) => Some(description),
            WalkItemModel::Entry(_) => first_failure(walk.drop_first()),
        }
    }
}

/// The outcome of collecting `source_dir`, given whether it exists and what
/// the walk yielded.
pub open spec fn collected(source_dir: Seq<char>, exists: bool, walk: Seq<WalkItemModel>) -> Result<
    Seq<char>,
    CollectErrorModel,
> {
    if !exists {
        Err(CollectErrorModel::NotFound(source_dir))
    } else {
        match first_failure(walk) {
            Some(description) => Err(CollectErrorModel::Walk(description)),
            None => Ok(joined(blocks_of(walk))),
        }
    }
}

/// The view of the outcome of a collection.
pub open spec fn outcome_view(r: Result<String, CollectError>) -> Result<
    Seq<char>,
    CollectErrorModel,
> {
    match r {
        Ok(text) => Ok(text@),
        Err(e) => Err(e@),
    }
}

/// Appending a block to a list appends the separator and the block to the
/// joined text, unless the list was empty.
pub proof fn lemma_joined_push(blocks: Seq<Seq<char>>, last: Seq<char>)
    ensures
        joined(blocks.push(last)) == if blocks.len() == 0 {
            last
        } else {
            joined(blocks) + separator() + last
        },
    decreases blocks.len(),
{
    let all = blocks.push(last);
    if blocks.len() == 1 {
        assert(all.drop_first() =~= seq![last]);
        assert(joined(seq![last]) == last);
    } else if blocks.len() > 1 {
        lemma_joined_push(blocks.drop_first(), last);
        assert(all.drop_first() =~= blocks.drop_first().push(last));
    }
}

/// A walk whose first `n` items are all entries has its first error, if any,
/// among the rest.
pub proof fn lemma_first_failure_skips_entries(walk: Seq<WalkItemModel>, n: int)
    requires
        0 <= n <= walk.len(),
        forall|j: int| 0 <= j < n ==> walk[j] is Entry,
    ensures
        first_failure(walk) == first_failure(walk.skip(n)),
    decreases n,
{
    if n == 0 {
        assert(walk.skip(0) =~= walk);
    } else {
        let rest = walk.drop_first();
        lemma_first_failure_skips_entries(rest, n - 1);
        assert(rest.skip(n - 1) =~= walk.skip(n));
    }
}

/// The blocks of a walk that is longer by one item.
pub proof fn lemma_blocks_of_push(walk: Seq<WalkItemModel>, item: WalkItemModel)
    ensures
        blocks_of(walk.push(item)) == if kept()(item) {
            blocks_of(walk).push(item->Entry_0.block())
        } else {
            blocks_of(walk)
        },
{
    reveal(Seq::filter);
    assert(walk.push(item).drop_last() =~= walk);
}

/// The collected blocks are exactly the blocks of the included entries: each
/// included entry of the walk has its block among them, and each of them is
/// the block of an included entry of the walk. Among the regular files that
/// were read, the included ones are those whose extension, in lower case, is
/// one of the collected extensions.
pub proof fn lemma_blocks_are_the_included_entries(walk: Seq<WalkItemModel>)
    ensures
        forall|i: int|
            0 <= i < walk.len() && kept()(#[trigger] walk[i]) ==> blocks_of(walk).contains(
                walk[i]->Entry_0.block(),
            ),
        forall|b: Seq<char>| #[trigger]
            blocks_of(walk).contains(b) ==> exists|i: int|
                0 <= i < walk.len() && kept()(#[trigger] walk[i]) && b == walk[i]->Entry_0.block(),
        forall|i: int|
            0 <= i < walk.len() && (#[trigger] walk[i] matches WalkItemModel::Entry(f) && f.is_file
                && f.content is Some) ==> (kept()(walk[i]) <==> walk[i]->Entry_0.extension is Some
                && source_extension(lowercase_of(walk[i]->Entry_0.extension->0))),
    decreases walk.len(),
{
    reveal(Seq::filter);
    if walk.len() > 0 {
        let front = walk.drop_last();
        let item = walk.last();
        lemma_blocks_are_the_included_entries(front);
        lemma_blocks_of_push(front, item);
        let blocks = blocks_of(walk);
        let earlier = blocks_of(front);
        assert forall|i: int| 0 <= i < walk.len() && kept()(#[trigger] walk[i]) implies blocks.contains(
            walk[i]->Entry_0.block(),
        ) by {
            if i < walk.len() - 1 {
                assert(front[i] == walk[i]);
                let b = walk[i]->Entry_0.block();
                let k = choose|k: int| 0 <= k < earlier.len() && earlier[k] == b;
                assert(blocks[k] == b);
            } else {
                assert(blocks[blocks.len() - 1] == item->Entry_0.block());
            }
        }
        assert forall|b: Seq<char>| #[trigger] blocks.contains(b) implies exists|i: int|
            0 <= i < walk.len() && kept()(#[trigger] walk[i]) && b == walk[i]->Entry_0.block() by {
            let k = choose|k: int| 0 <= k < blocks.len() && blocks[k] == b;
            if k < earlier.len() {
                assert(earlier[k] == b);
                assert(earlier.contains(b));
            }
        }
    }
}

/// The block that stands for one file.
pub fn file_block(relative_path: &str, content: &str) -> (r: String)
    ensures
        r@ == block_text(relative_path@, content@),
{
    let mut block = String::from_str("// File: ");
    block.append(relative_path);
    block.append("\n");
    block.append(content);
    block.append("\n");
    block
}

/// Joins blocks into one text, with the separator between each two of them.
pub fn join_blocks(blocks: &Vec<String>) -> (r: String)
    ensures
        r@ == joined(texts(blocks@)),
{
    let mut out = String::new();
    let mut i: usize = 0;
    while i < blocks.len()
        invariant
            i <= blocks.len(),
            out@ == joined(texts(blocks@).take(i as int)),
        decreases blocks.len() - i,
    {
        proof {
            let done = texts(blocks@).take(i as int);
            lemma_joined_push(done, blocks[i as int]@);
            assert(texts(blocks@).take(i + 1) =~= done.push(blocks[i as int]@));
        }
        if i > 0 {
            out.append("\n---\n\n");
        }
        out.append(blocks[i].as_str());
        i = i + 1;
    }
    assert(texts(blocks@).take(blocks.len() as int) =~= texts(blocks@));
    out
}

/// Collects the source text of `source_dir` from what the host found there.
///
/// `exists` says whether the directory exists, and `walk` holds what the walk
/// of it yielded, in order. The collection fails when the directory does not
/// exist, and with the first error of the walk when it has one. Otherwise the
/// result holds one block for each regular file with a collected extension
/// whose content was read, in the order of the walk.
pub fn collect_source_code(source_dir: &str, exists: bool, walk: &Vec<WalkItem>) -> (r: Result<
    String,
    CollectError,
>)
    ensures
        outcome_view(r) == collected(source_dir@, exists, walk_view(walk@)),
{
    if !exists {
        return Err(CollectError::NotFound(String::from_str(source_dir)));
    }
    let ghost items = walk_view(walk@);
    let mut blocks: Vec<String> = Vec::new();
    let mut i: usize = 0;
    assert(blocks_of(Seq::<WalkItemModel>::empty()) =~= Seq::<Seq<char>>::empty()) by {
        reveal(Seq::filter);
    }
    while i < walk.len()
        invariant
            exists,
            i <= walk.len(),
            items == walk_view(walk@),
            forall|j: int| 0 <= j < i ==> items[j] is Entry,
            texts(blocks@) == blocks_of(items.take(i as int)),
        decreases walk.len() - i,
    {
        proof {
            lemma_blocks_of_push(items.take(i as int), items[i as int]);
            assert(items.take(i + 1) =~= items.take(i as int).push(items[i as int]));
        }
        match &walk[i] {
            WalkItem::Failure(description) => {
                proof {
                    lemma_first_failure_skips_entries(items, i as int);
                }
                let reason = String::from_str(description.as_str());
                return Err(CollectError::Walk(reason));
            },
            WalkItem::Entry(file) => {
                if file.is_included() {
                    match &file.content {
                        Some(content) => {
                            let block = file_block(file.relative_path.as_str(), content.as_str());
                            blocks.push(block);
                        },
                        None => {},
                    }
                }
            },
        }
        i = i + 1;
    }
    proof {
        assert(items.take(walk.len() as int) =~= items);
        lemma_first_failure_skips_entries(items, items.len() as int);
    }
    Ok(join_blocks(&blocks))
}

} // verus!
