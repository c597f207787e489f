//! The destination-folder browser: its state and how it moves.
use vstd::prelude::*;
use vstd::string::*;
use crate::paths::{join, join_path, parent_of, path_parent, paths_equal, same_path};
use crate::text::{str_eq, lemma_lex_less_transitive, lemma_lex_less_irreflexive, chars_of, path_debug_quoted, path_debug_text, lex_less, lex_less_exec, lowercase, to_lowercase, trim, trim_str};

verus! {

/// One row of the folder list.
#[derive(Debug, Clone, PartialEq, Eq)]
pub struct DirEntryItem {
    pub name: String,
    pub path: String,
    pub is_parent: bool,
}

/// Mathematical view of a [`DirEntryItem`].
pub struct EntryView {
    pub name: Seq<char>,
    pub path: Seq<char>,
    pub is_parent: bool,
}

impl View for DirEntryItem {
    type V = EntryView;

    open spec fn view(&self) -> EntryView {
        EntryView { name: self.name@, path: self.path@, is_parent: self.is_parent }
    }
}

/// Views of a list of rows.
pub open spec fn entries_view(v: Seq<DirEntryItem>) -> Seq<EntryView> {
    v.map_values(|e: DirEntryItem| e@)
}

/// An entry of a directory as read from the file system.
#[derive(Debug, Clone)]
pub struct RawDirEntry {
    /// The file name.
    pub name: String,
    /// Whether it is a directory.
    pub is_dir: bool,
}

/// Mathematical view of a [`RawDirEntry`].
pub struct RawView {
    pub name: Seq<char>,
    pub is_dir: bool,
}

impl View for RawDirEntry {
    type V = RawView;

    open spec fn view(&self) -> RawView {
        RawView { name: self.name@, is_dir: self.is_dir }
    }
}

/// Views of a directory listing.
pub open spec fn raw_view(v: Seq<RawDirEntry>) -> Seq<RawView> {
    v.map_values(|e: RawDirEntry| e@)
}

/// State of the folder browser.
#[derive(Debug, Clone)]
pub struct DirBrowserState {
    pub root_path: String,
    pub current_path: String,
    pub entries: Vec<DirEntryItem>,
    pub selected_index: usize,
    pub is_creating_dir: bool,
    pub new_dir_input: String,
    pub error_message: Option<String>,
}

/// `current` lies below `root`: it is neither the same text nor the same path.
pub open spec fn below_root(current: Seq<char>, root: Seq<char>) -> bool {
    current != root && !same_path(current, root)
}

/// Whether `current` lies below `root` (see [`below_root`]).
pub fn is_below_root(current: &str, root: &str) -> (r: bool)
    ensures
        r == below_root(current@, root@),
{
    !str_eq(current, root) && !paths_equal(current, root)
}

/// The label of the row that leads to the parent directory.
pub open spec fn parent_label() -> Seq<char> {
    ".. (Parent Directory)"@
}

/// A listed directory is shown when it is a directory and not hidden (name not starting
/// with `.`).
pub open spec fn shown(e: RawView) -> bool {
    e.is_dir && !(e.name.len() > 0 && e.name[0] == '.')
}

/// The row for a shown directory of `current`: its name, and its path joined to `current`.
pub open spec fn row_of(current: Seq<char>, e: RawView) -> EntryView {
    EntryView { name: e.name, path: join_path(current, e.name), is_parent: false }
}

/// The rows for the shown directories of a listing of `current`, in listing order.
pub open spec fn shown_rows(current: Seq<char>, l: Seq<RawView>) -> Seq<EntryView>
    decreases l.len(),
{
    if l.len() == 0 {
        Seq::empty()
    } else {
        let rest = shown_rows(current, l.drop_last());
        if shown(l.last()) {
            rest.push(row_of(current, l.last()))
        } else {
            rest
        }
    }
}

/// Inserts a row after every row whose lower-cased name does not sort after its own.
pub open spec fn insert_by_name(sorted: Seq<EntryView>, e: EntryView) -> Seq<EntryView>
    decreases sorted.len(),
{
    if sorted.len() == 0 {
        seq![e]
    } else if lex_less(lowercase(e.name), lowercase(sorted[0].name)) {
        seq![e] + sorted
    } else {
        seq![sorted[0]] + insert_by_name(sorted.drop_first(), e)
    }
}

/// Rows ordered by lower-cased name; rows of equal lower-cased name keep their order
/// (the stable `sort_by` on `to_lowercase`).
pub open spec fn sort_by_name(s: Seq<EntryView>) -> Seq<EntryView>
    decreases s.len(),
{
    if s.len() == 0 {
        s
    } else {
        insert_by_name(sort_by_name(s.drop_last()), s.last())
    }
}

/// The rows of the folder list at `current`: a row for the parent when `current` is below
/// the root and has a parent, then the shown subdirectories by name. `None` as listing
/// means the directory could not be read.
pub open spec fn rows_of(root: Seq<char>, current: Seq<char>, listing: Option<Seq<RawView>>) -> Seq<EntryView> {
    let head: Seq<EntryView> = if below_root(current, root) && path_parent(current) is Some {
        seq![EntryView { name: parent_label(), path: path_parent(current)->0, is_parent: true }]
    } else {
        Seq::empty()
    };
    match listing {
        Some(l) => head + sort_by_name(shown_rows(current, l)),
        None => head,
    }
}

/// The error shown when a directory cannot be read.
pub open spec fn not_accessible_message(current: Seq<char>) -> Seq<char> {
    "Directory not accessible: "@ + path_debug_quoted(current)
}

/// The selection after reloading: kept, unless past the end of a non-empty list, then on
/// its last row.
pub open spec fn clamp_selection(sel: usize, n: nat) -> usize {
    if sel >= n && n > 0 {
        (n - 1) as usize
    } else {
        sel
    }
}

/// Optional listing view.
pub open spec fn listing_view(l: Option<Vec<RawDirEntry>>) -> Option<Seq<RawView>> {
    match l {
        Some(v) => Some(raw_view(v@)),
        None => None,
    }
}

/// The state after reloading the rows of `current` from `listing`.
pub open spec fn reloaded(old: DirBrowserState, new: DirBrowserState, listing: Option<Seq<RawView>>) -> bool {
    &&& new.root_path == old.root_path
    &&& new.current_path == old.current_path
    &&& new.is_creating_dir == old.is_creating_dir
    &&& new.new_dir_input == old.new_dir_input
    &&& entries_view(new.entries@) == rows_of(old.root_path@, old.current_path@, listing)
    &&& new.selected_index == clamp_selection(
        old.selected_index,
        rows_of(old.root_path@, old.current_path@, listing).len(),
    )
    &&& new.error_message.deep_view() == match listing {
        Some(_) => None,
        None => Some(not_accessible_message(old.current_path@)),
    }
}

fn copy_entry(e: &DirEntryItem) -> (r: DirEntryItem)
    ensures
        r@ == e@,
{
    DirEntryItem { name: e.name.clone(), path: e.path.clone(), is_parent: e.is_parent }
}

proof fn lemma_insert_by_name(s: Seq<EntryView>, e: EntryView, p: int)
    requires
        0 <= p <= s.len(),
        forall|j: int| 0 <= j < p ==> !lex_less(lowercase(e.name), lowercase(#[trigger] s[j].name)),
        p < s.len() ==> lex_less(lowercase(e.name), lowercase(s[p].name)),
    ensures
        insert_by_name(s, e) == s.take(p).push(e) + s.skip(p),
    decreases s.len(),
{
    if s.len() == 0 {
        assert(s.take(p).push(e) + s.skip(p) == seq![e]);
    } else if p == 0 {
        assert(s.take(0).push(e) + s.skip(0) == seq![e] + s);
    } else {
        let d = s.drop_first();
        assert forall|j: int| 0 <= j < p - 1 implies !lex_less(
            lowercase(e.name),
            lowercase(#[trigger] d[j].name),
        ) by {
            assert(d[j] == s[j + 1]);
        }
        if p - 1 < d.len() {
            assert(d[p - 1] == s[p]);
        }
        assert(!lex_less(lowercase(e.name), lowercase(s[0].name)));
        lemma_insert_by_name(d, e, p - 1);
        assert(seq![s[0]] + (d.take(p - 1).push(e) + d.skip(p - 1)) == s.take(p).push(e) + s.skip(
            p,
        ));
    }
}

/// Sorts rows by lower-cased name (see [`sort_by_name`]).
fn sorted_by_name(rows: Vec<DirEntryItem>) -> (r: Vec<DirEntryItem>)
    ensures
        entries_view(r@) == sort_by_name(entries_view(rows@)),
{
    let ghost src = entries_view(rows@);
    let mut out: Vec<DirEntryItem> = Vec::new();
    let mut keys: Vec<Vec<char>> = Vec::new();
    let mut i: usize = 0;
    while i < rows.len()
        invariant
            i <= rows.len(),
            src == entries_view(rows@),
            entries_view(out@) == sort_by_name(src.take(i as int)),
            keys.len() == out.len(),
            forall|j: int| 0 <= j < keys.len() ==> keys@[j]@ == lowercase(#[trigger] out@[j].name@),
        decreases rows.len() - i,
    {
        let e = copy_entry(&rows[i]);
        assert(src[i as int] == e@);
        let k = chars_of(to_lowercase(e.name.as_str()).as_str());
        let mut p: usize = 0;
        while p < out.len() && !lex_less_exec(&k, &keys[p])
            invariant
                p <= out.len(),
                keys.len() == out.len(),
                k@ == lowercase(e.name@),
                forall|j: int| 0 <= j < keys.len() ==> keys@[j]@ == lowercase(#[trigger] out@[j].name@),
                forall|j: int|
                    0 <= j < p ==> !lex_less(lowercase(e@.name), lowercase(#[trigger] entries_view(out@)[j].name)),
            decreases out.len() - p,
        {
            assert(entries_view(out@)[p as int] == out@[p as int]@);
            p += 1;
        }
        proof {
            if p < out.len() {
                assert(entries_view(out@)[p as int] == out@[p as int]@);
            }
            lemma_insert_by_name(entries_view(out@), e@, p as int);
            assert(src.take(i + 1).drop_last() == src.take(i as int));
            assert(src.take(i + 1).last() == e@);
        }
        let ghost before = out@;
        let ghost kbefore = keys@;
        out.insert(p, e);
        keys.insert(p, k);
        proof {
            assert(out@ == before.take(p as int).push(e) + before.skip(p as int));
            assert(entries_view(out@) == entries_view(before).take(p as int).push(e@)
                + entries_view(before).skip(p as int));
            assert forall|j: int| 0 <= j < keys.len() implies keys@[j]@ == lowercase(
                #[trigger] out@[j].name@,
            ) by {
                if j < p {
                    assert(out@[j] == before[j] && keys@[j] == kbefore[j]);
                } else if j > p {
                    assert(out@[j] == before[j - 1] && keys@[j] == kbefore[j - 1]);
                }
            }
        }
        i += 1;
    }
    assert(src.take(rows.len() as int) == src);
    out
}

impl DirBrowserState {
    /// A browser rooted at `root_path`. It starts in the root when that exists, otherwise
    /// in the download directory (or `.`). The rows are empty until the first reload.
    pub fn new(root_path: String, root_exists: bool, download_dir: Option<String>) -> (r: Self)
        ensures
            r.root_path@ == root_path@,
            r.current_path@ == if root_exists {
                root_path@
            } else {
                match download_dir.deep_view() {
                    Some(d) => d,
                    None => "."@,
                }
            },
            r.entries@.len() == 0,
            r.selected_index == 0,
            !r.is_creating_dir,
            r.new_dir_input@.len() == 0,
            r.error_message is None,
    {
        let current_path = if root_exists {
            root_path.clone()
        } else {
            match download_dir {
                Some(d) => d,
                None => String::from_str("."),
            }
        };
        DirBrowserState {
            root_path,
            current_path,
            entries: Vec::new(),
            selected_index: 0,
            is_creating_dir: false,
            new_dir_input: String::new(),
            error_message: None,
        }
    }

    /// Rebuilds the rows of the current directory from its listing (`None` when it could
    /// not be read); see [`reloaded`].
    pub fn reload_entries(&mut self, listing: Option<Vec<RawDirEntry>>)
        ensures
            reloaded(*old(self), *final(self), listing_view(listing)),
    {
        let ghost rows = rows_of(self.root_path@, self.current_path@, listing_view(listing));
        let mut entries: Vec<DirEntryItem> = Vec::new();
        if is_below_root(self.current_path.as_str(), self.root_path.as_str()) {
            match parent_of(self.current_path.as_str()) {
                Some(parent) => {
                    entries.push(
                        DirEntryItem {
                            name: String::from_str(".. (Parent Directory)"),
                            path: parent,
                            is_parent: true,
                        },
                    );
                },
                None => {},
            }
        }
        let ghost head = entries_view(entries@);
        match listing {
            Some(items) => {
                let mut dirs: Vec<DirEntryItem> = Vec::new();
                let mut i: usize = 0;
                while i < items.len()
                    invariant
                        i <= items.len(),
                        entries_view(dirs@) == shown_rows(self.current_path@, raw_view(items@).take(i as int)),
                    decreases items.len() - i,
                {
                    assert(raw_view(items@).take(i + 1).drop_last() == raw_view(items@).take(
                        i as int,
                    ));
                    assert(raw_view(items@).take(i + 1).last() == items@[i as int]@);
                    let it = &items[i];
                    let name = chars_of(it.name.as_str());
                    let hidden = name.len() > 0 && name[0] == '.';
                    if it.is_dir && !hidden {
                        let row = DirEntryItem {
                            name: it.name.clone(),
                            path: join(self.current_path.as_str(), it.name.as_str()),
                            is_parent: false,
                        };
                        let ghost before = dirs@;
                        dirs.push(row);
                        assert(entries_view(dirs@) == entries_view(before).push(row@));
                    }
                    i += 1;
                }
                assert(raw_view(items@).take(items.len() as int) == raw_view(items@));
                let sorted = sorted_by_name(dirs);
                let mut k: usize = 0;
                while k < sorted.len()
                    invariant
                        k <= sorted.len(),
                        entries_view(entries@) == head + entries_view(sorted@).take(k as int),
                    decreases sorted.len() - k,
                {
                    let ghost before = entries@;
                    entries.push(copy_entry(&sorted[k]));
                    assert(entries_view(sorted@).take(k + 1) == entries_view(sorted@).take(
                        k as int,
                    ).push(sorted@[k as int]@));
                    assert(entries_view(entries@) == entries_view(before).push(sorted@[k as int]@));
                    k += 1;
                }
                assert(entries_view(sorted@).take(sorted.len() as int) == entries_view(sorted@));
                self.error_message = None;
            },
            None => {
                let mut msg = String::from_str("Directory not accessible: ");
                let q = path_debug_text(self.current_path.as_str());
                msg.append(q.as_str());
                self.error_message = Some(msg);
            },
        }
        assert(entries_view(entries@) == rows);
        self.entries = entries;
        if self.selected_index >= self.entries.len() && self.entries.len() > 0 {
            self.selected_index = self.entries.len() - 1;
        }
    }

    /// Points the browser at a new root (and into it): the selection, the new-folder prompt
    /// and the error are reset. The rows are left for [`Self::reload_entries`].
    pub fn reset_to_root(&mut self, root: String)
        ensures
            *final(self) == (DirBrowserState {
                root_path: final(self).root_path,
                current_path: final(self).current_path,
                selected_index: 0,
                is_creating_dir: false,
                new_dir_input: final(self).new_dir_input,
                error_message: None,
                ..*old(self)
            }),
            final(self).root_path@ == root@,
            final(self).current_path@ == root@,
            final(self).new_dir_input@.len() == 0,
    {
        self.root_path = root.clone();
        self.current_path = root;
        self.selected_index = 0;
        self.is_creating_dir = false;
        self.new_dir_input = String::new();
        self.error_message = None;
    }

    /// Moves to a new root (and into it) with the rows of its listing; the selection, the
    /// new-folder prompt and the error are reset.
    pub fn set_root(&mut self, root: String, listing: Option<Vec<RawDirEntry>>)
        ensures
            final(self).root_path@ == root@,
            final(self).current_path@ == root@,
            !final(self).is_creating_dir,
            final(self).new_dir_input@.len() == 0,
            entries_view(final(self).entries@) == rows_of(root@, root@, listing_view(listing)),
            final(self).selected_index == 0,
            final(self).error_message.deep_view() == match listing_view(listing) {
                Some(_) => None,
                None => Some(not_accessible_message(root@)),
            },
            forall|i: int|
                0 <= i < final(self).entries@.len() ==> !(#[trigger] final(self).entries@[i]).is_parent
                    && final(self).entries@[i].path@ == join_path(root@, final(self).entries@[i].name@),
    {
        self.reset_to_root(root);
        self.reload_entries(listing);
        proof {
            law_rows_of(self.root_path@, self.current_path@, listing_view(listing));
            assert forall|i: int| 0 <= i < self.entries@.len() implies !(#[trigger] self.entries@[i]).is_parent
                && self.entries@[i].path@ == join_path(self.root_path@, self.entries@[i].name@) by {
                assert(entries_view(self.entries@)[i] == self.entries@[i]@);
            }
        }
    }

    /// The directory that [`Self::enter_selected`] would move into.
    pub fn selected_path(&self) -> (r: Option<String>)
        ensures
            match r {
                Some(p) => self.selected_index < self.entries@.len() && p@
                    == self.entries@[self.selected_index as int].path@,
                None => self.selected_index >= self.entries@.len(),
            },
    {
        if self.selected_index < self.entries.len() {
            Some(self.entries[self.selected_index].path.clone())
        } else {
            None
        }
    }

    /// Points the browser at the selected row's directory with the selection on the first
    /// row; `false` (and no change) when nothing is selected. The rows are left for
    /// [`Self::reload_entries`].
    pub fn move_to_selected(&mut self) -> (r: bool)
        ensures
            r == (old(self).selected_index < old(self).entries@.len()),
            r ==> *final(self) == (DirBrowserState {
                current_path: old(self).entries@[old(self).selected_index as int].path,
                selected_index: 0,
                ..*old(self)
            }),
            !r ==> *final(self) == *old(self),
    {
        if self.selected_index < self.entries.len() {
            let p = self.entries[self.selected_index].path.clone();
            self.current_path = p;
            self.selected_index = 0;
            true
        } else {
            false
        }
    }

    /// Moves into the selected row's directory, given that directory's listing; `false`
    /// (and no change) when nothing is selected.
    pub fn enter_selected(&mut self, listing: Option<Vec<RawDirEntry>>) -> (r: bool)
        ensures
            r == (old(self).selected_index < old(self).entries@.len()),
            r ==> {
                let moved = DirBrowserState {
                    current_path: old(self).entries@[old(self).selected_index as int].path,
                    selected_index: 0,
                    ..*old(self)
                };
                reloaded(moved, *final(self), listing_view(listing))
            },
            !r ==> *final(self) == *old(self),
    {
        if self.move_to_selected() {
            self.reload_entries(listing);
            true
        } else {
            false
        }
    }

    /// The directory that [`Self::go_parent`] would move to.
    pub fn parent_target(&self) -> (r: Option<String>)
        ensures
            r.deep_view() == if below_root(self.current_path@, self.root_path@) {
                path_parent(self.current_path@)
            } else {
                None
            },
    {
        if is_below_root(self.current_path.as_str(), self.root_path.as_str()) {
            parent_of(self.current_path.as_str())
        } else {
            None
        }
    }

    /// Points the browser at the parent directory with the selection on the first row; only
    /// below the root. `false` (and no change) at the root or when there is no parent. The
    /// rows are left for [`Self::reload_entries`].
    pub fn move_to_parent(&mut self) -> (r: bool)
        ensures
            r == (below_root(old(self).current_path@, old(self).root_path@) && path_parent(
                old(self).current_path@,
            ) is Some),
            r ==> *final(self) == (DirBrowserState {
                current_path: final(self).current_path,
                selected_index: 0,
                ..*old(self)
            }) && final(self).current_path@ == path_parent(old(self).current_path@)->0,
            !r ==> *final(self) == *old(self),
    {
        if is_below_root(self.current_path.as_str(), self.root_path.as_str()) {
            match parent_of(self.current_path.as_str()) {
                Some(parent) => {
                    self.current_path = parent;
                    self.selected_index = 0;
                    return true;
                },
                None => {},
            }
        }
        false
    }

    /// Moves to the parent directory, given its listing; only below the root. `false` (and
    /// no change) at the root or when there is no parent.
    pub fn go_parent(&mut self, listing: Option<Vec<RawDirEntry>>) -> (r: bool)
        ensures
            r == (below_root(old(self).current_path@, old(self).root_path@) && path_parent(
                old(self).current_path@,
            ) is Some),
            r ==> {
                let moved = DirBrowserState {
                    selected_index: 0,
                    ..*old(self)
                };
                &&& final(self).current_path@ == path_parent(old(self).current_path@)->0
                &&& reloaded(
                    DirBrowserState { current_path: final(self).current_path, ..moved },
                    *final(self),
                    listing_view(listing),
                )
            },
            !r ==> *final(self) == *old(self),
    {
        if self.move_to_parent() {
            self.reload_entries(listing);
            true
        } else {
            false
        }
    }

    /// Opens the new-folder prompt with an empty name.
    pub fn start_create_dir(&mut self)
        ensures
            *final(self) == (DirBrowserState {
                is_creating_dir: true,
                new_dir_input: final(self).new_dir_input,
                error_message: None,
                ..*old(self)
            }),
            final(self).new_dir_input@.len() == 0,
    {
        self.is_creating_dir = true;
        self.new_dir_input = String::new();
        self.error_message = None;
    }

    /// Closes the new-folder prompt and clears its name and the error.
    pub fn cancel_create_dir(&mut self)
        ensures
            *final(self) == (DirBrowserState {
                is_creating_dir: false,
                new_dir_input: final(self).new_dir_input,
                error_message: None,
                ..*old(self)
            }),
            final(self).new_dir_input@.len() == 0,
    {
        self.is_creating_dir = false;
        self.new_dir_input = String::new();
        self.error_message = None;
    }

    /// The folder that confirming the prompt creates: the trimmed name joined to the current
    /// directory; an error when the name is blank.
    pub fn new_dir_target(&self) -> (r: Result<String, String>)
        ensures
            trim(self.new_dir_input@).len() == 0 ==> (r matches Err(e) && e@
                == "Folder name cannot be empty"@),
            trim(self.new_dir_input@).len() != 0 ==> (r matches Ok(p) && p@ == join_path(
                self.current_path@,
                trim(self.new_dir_input@),
            )),
    {
        let name = trim_str(self.new_dir_input.as_str());
        if name.as_str().is_empty() {
            Err(String::from_str("Folder name cannot be empty"))
        } else {
            Ok(join(self.current_path.as_str(), name.as_str()))
        }
    }

    /// After the folder was created: closes the prompt and points the browser into it. The
    /// rows are left for [`Self::reload_entries`].
    pub fn enter_created_dir(&mut self, new_path: String)
        ensures
            *final(self) == (DirBrowserState {
                is_creating_dir: false,
                new_dir_input: final(self).new_dir_input,
                current_path: final(self).current_path,
                ..*old(self)
            }),
            final(self).current_path@ == new_path@,
            final(self).new_dir_input@.len() == 0,
    {
        self.is_creating_dir = false;
        self.new_dir_input = String::new();
        self.current_path = new_path;
    }

    /// After the folder was created: closes the prompt and moves into it, given its listing.
    pub fn finish_create_dir(&mut self, new_path: String, listing: Option<Vec<RawDirEntry>>)
        ensures
            final(self).current_path@ == new_path@,
            reloaded(
                DirBrowserState {
                    is_creating_dir: false,
                    new_dir_input: final(self).new_dir_input,
                    current_path: final(self).current_path,
                    ..*old(self)
                },
                *final(self),
                listing_view(listing),
            ),
            final(self).new_dir_input@.len() == 0,
    {
        self.enter_created_dir(new_path);
        self.reload_entries(listing);
    }
}

/// The error shown when a folder could not be created.
pub fn create_dir_failure_message(path: &str) -> (r: String)
    ensures
        r@ == "Failed to create directory at: "@ + path_debug_quoted(path@),
{
    let mut s = String::from_str("Failed to create directory at: ");
    let q = path_debug_text(path);
    s.append(q.as_str());
    s
}


/// Rows in name order: no row's lower-cased name sorts strictly before that of a row above
/// it.
pub open spec fn in_name_order(s: Seq<EntryView>) -> bool {
    forall|i: int, j: int|
        0 <= i < j < s.len() ==> !lex_less(lowercase(#[trigger] s[j].name), lowercase(#[trigger] s[i].name))
}

proof fn lemma_insert_keeps_name_order(s: Seq<EntryView>, e: EntryView)
    requires
        in_name_order(s),
    ensures
        in_name_order(insert_by_name(s, e)),
        insert_by_name(s, e).to_multiset() == s.to_multiset().insert(e),
        insert_by_name(s, e).len() == s.len() + 1,
        forall|k: int|
            0 <= k < insert_by_name(s, e).len() ==> #[trigger] insert_by_name(s, e)[k] == e || s.contains(
                insert_by_name(s, e)[k],
            ),
    decreases s.len(),
{
    broadcast use vstd::seq_lib::group_seq_properties;
    broadcast use vstd::multiset::group_multiset_axioms;
    if s.len() == 0 {
        assert(seq![e].to_multiset() == Seq::<EntryView>::empty().to_multiset().insert(e));
    } else if lex_less(lowercase(e.name), lowercase(s[0].name)) {
        let r = seq![e] + s;
        assert forall|i: int, j: int| 0 <= i < j < r.len() implies !lex_less(
            lowercase(#[trigger] r[j].name),
            lowercase(#[trigger] r[i].name),
        ) by {
            if i == 0 {
                assert(r[j] == s[j - 1]);
                if lex_less(lowercase(s[j - 1].name), lowercase(e.name)) {
                    lemma_lex_less_transitive(lowercase(s[j - 1].name), lowercase(e.name), lowercase(s[0].name));
                    if j - 1 == 0 {
                        lemma_lex_less_irreflexive(lowercase(s[0].name));
                    }
                }
            } else {
                assert(r[i] == s[i - 1] && r[j] == s[j - 1]);
            }
        }
        assert(r == s.insert(0, e));
        assert forall|k: int| 0 <= k < r.len() implies #[trigger] r[k] == e || s.contains(r[k]) by {
            if k > 0 {
                assert(r[k] == s[k - 1]);
            }
        }
    } else {
        let d = s.drop_first();
        assert forall|i: int, j: int| 0 <= i < j < d.len() implies !lex_less(
            lowercase(#[trigger] d[j].name),
            lowercase(#[trigger] d[i].name),
        ) by {
            assert(d[i] == s[i + 1] && d[j] == s[j + 1]);
        }
        lemma_insert_keeps_name_order(d, e);
        let rest = insert_by_name(d, e);
        let r = seq![s[0]] + rest;
        assert(insert_by_name(s, e) == r);
        assert forall|i: int, j: int| 0 <= i < j < r.len() implies !lex_less(
            lowercase(#[trigger] r[j].name),
            lowercase(#[trigger] r[i].name),
        ) by {
            if i == 0 {
                assert(r[j] == rest[j - 1]);
                if rest[j - 1] != e {
                    assert(d.contains(rest[j - 1]));
                    let k = choose|k: int| 0 <= k < d.len() && d[k] == rest[j - 1];
                    assert(d[k] == s[k + 1]);
                }
            } else {
                assert(r[i] == rest[i - 1] && r[j] == rest[j - 1]);
            }
        }
        assert forall|k: int| 0 <= k < r.len() implies #[trigger] r[k] == e || s.contains(r[k]) by {
            if k > 0 {
                assert(r[k] == rest[k - 1]);
                if rest[k - 1] != e {
                    let m = choose|m: int| 0 <= m < d.len() && d[m] == rest[k - 1];
                    assert(d[m] == s[m + 1]);
                }
            } else {
                assert(r[0] == s[0]);
            }
        }
        assert(s == seq![s[0]] + d);
        assert(s.to_multiset() == d.to_multiset().insert(s[0])) by {
            assert(s == d.insert(0, s[0]));
        }
        assert(r == rest.insert(0, s[0]));
    }
}

/// The folder list's subdirectories come in name order (ignoring case) and are exactly the
/// shown subdirectories of the listing, each as often as listed.
pub proof fn law_sort_by_name(s: Seq<EntryView>)
    ensures
        in_name_order(sort_by_name(s)),
        sort_by_name(s).to_multiset() == s.to_multiset(),
        sort_by_name(s).len() == s.len(),
    decreases s.len(),
{
    broadcast use vstd::seq_lib::group_seq_properties;
    broadcast use vstd::multiset::group_multiset_axioms;
    if s.len() > 0 {
        law_sort_by_name(s.drop_last());
        lemma_insert_keeps_name_order(sort_by_name(s.drop_last()), s.last());
        assert(s == s.drop_last().push(s.last()));
    }
}

/// After a reload the selection is on a row whenever there are rows.
pub proof fn law_reload_selection_in_range(old: DirBrowserState, new: DirBrowserState, listing: Option<Seq<RawView>>)
    requires
        reloaded(old, new, listing),
    ensures
        new.entries@.len() > 0 ==> new.selected_index < new.entries@.len(),
{
    assert(entries_view(new.entries@).len() == new.entries@.len());
}


/// A row that lists a subdirectory of `current` by name.
pub open spec fn child_row(current: Seq<char>, e: EntryView) -> bool {
    &&& !e.is_parent
    &&& e.path == join_path(current, e.name)
    &&& !(e.name.len() > 0 && e.name[0] == '.')
}

proof fn lemma_shown_rows_children(current: Seq<char>, l: Seq<RawView>)
    ensures
        forall|i: int| 0 <= i < shown_rows(current, l).len() ==> child_row(current, #[trigger] shown_rows(current, l)[i]),
    decreases l.len(),
{
    if l.len() > 0 {
        let d = l.drop_last();
        lemma_shown_rows_children(current, d);
        let rest = shown_rows(current, d);
        assert forall|i: int| 0 <= i < shown_rows(current, l).len() implies child_row(
            current,
            #[trigger] shown_rows(current, l)[i],
        ) by {
            if i < rest.len() {
                assert(shown_rows(current, l)[i] == rest[i]);
            } else {
                assert(shown(l.last()));
                assert(shown_rows(current, l)[i] == row_of(current, l.last()));
            }
        }
    }
}

/// The folder list's rows: at most one parent row, first, and only below the root, leading
/// to the parent directory; every other row is a visible subdirectory of the current folder,
/// whose path is the current folder joined with its name.
pub proof fn law_rows_of(root: Seq<char>, current: Seq<char>, listing: Option<Seq<RawView>>)
    ensures
        forall|i: int|
            0 <= i < rows_of(root, current, listing).len() && (#[trigger] rows_of(root, current, listing)[i]).is_parent
                ==> i == 0 && below_root(current, root) && rows_of(root, current, listing)[i].path == path_parent(current)->0,
        forall|i: int|
            0 <= i < rows_of(root, current, listing).len() && !(#[trigger] rows_of(root, current, listing)[i]).is_parent
                ==> child_row(current, rows_of(root, current, listing)[i]),
{
    broadcast use vstd::seq_lib::group_to_multiset_ensures;
    let rows = rows_of(root, current, listing);
    let head: Seq<EntryView> = if below_root(current, root) && path_parent(current) is Some {
        seq![EntryView { name: parent_label(), path: path_parent(current)->0, is_parent: true }]
    } else {
        Seq::empty()
    };
    if let Some(l) = listing {
        let sh = shown_rows(current, l);
        let so = sort_by_name(sh);
        lemma_shown_rows_children(current, l);
        law_sort_by_name(sh);
        assert(rows == head + so);
        assert forall|j: int| 0 <= j < so.len() implies child_row(current, #[trigger] so[j]) by {
            assert(so.contains(so[j]));
            assert(so.to_multiset().count(so[j]) > 0);
            assert(sh.to_multiset().count(so[j]) > 0);
            assert(sh.contains(so[j]));
            let k = choose|k: int| 0 <= k < sh.len() && sh[k] == so[j];
        }
        assert forall|i: int| 0 <= i < rows.len() && i >= head.len() implies child_row(current, #[trigger] rows[i]) by {
            assert(rows[i] == so[i - head.len()]);
        }
    }
}

/// `p` lies under `root` as text: `root` is a prefix of `p`.
pub open spec fn under_root(root: Seq<char>, p: Seq<char>) -> bool {
    root.len() <= p.len() && p.take(root.len() as int) == root
}

/// Entering a subdirectory row keeps the browser under its root: from a folder under the
/// root whose rows were read from a listing whose names do not start with `/` (as file
/// names never do), the folder entered is under the root too, and the root is unchanged.
pub proof fn law_enter_stays_under_root(old: DirBrowserState, new: DirBrowserState, l: Seq<RawView>)
    requires
        under_root(old.root_path@, old.current_path@),
        entries_view(old.entries@) == rows_of(old.root_path@, old.current_path@, Some(l)),
        forall|k: int| 0 <= k < l.len() ==> !((#[trigger] l[k]).name.len() > 0 && l[k].name[0] == '/'),
        old.selected_index < old.entries@.len(),
        !old.entries@[old.selected_index as int].is_parent,
        new == (DirBrowserState {
            current_path: old.entries@[old.selected_index as int].path,
            selected_index: 0,
            ..old
        }),
    ensures
        new.root_path == old.root_path,
        under_root(new.root_path@, new.current_path@),
{
    broadcast use vstd::seq_lib::group_to_multiset_ensures;
    let rows = rows_of(old.root_path@, old.current_path@, Some(l));
    let i = old.selected_index as int;
    law_rows_of(old.root_path@, old.current_path@, Some(l));
    assert(entries_view(old.entries@)[i] == old.entries@[i]@);
    assert(child_row(old.current_path@, rows[i]));
    let cur = old.current_path@;
    let name = rows[i].name;
    // the row's name is a listed name
    let head: Seq<EntryView> = if below_root(cur, old.root_path@) && path_parent(cur) is Some {
        seq![EntryView { name: parent_label(), path: path_parent(cur)->0, is_parent: true }]
    } else {
        Seq::empty()
    };
    let head_len = head.len() as int;
    let sh = shown_rows(cur, l);
    lemma_shown_names_listed(cur, l);
    law_sort_by_name(sh);
    let so = sort_by_name(sh);
    assert(rows == head + so);
    assert(i >= head_len) by {
        if i < head_len {
            assert(rows[i] == head[i]);
        }
    }
    assert(rows[i] == so[i - head_len]);
    assert(so.contains(so[i - head_len]));
    assert(so.to_multiset().count(so[i - head_len]) > 0);
    assert(sh.to_multiset().count(so[i - head_len]) > 0);
    assert(sh.contains(so[i - head_len]));
    let k = choose|k: int| 0 <= k < sh.len() && sh[k] == so[i - head_len];
    assert(!(name.len() > 0 && name[0] == '/'));
    let np = join_path(cur, name);
    let root = old.root_path@;
    if cur.len() == 0 || cur.last() == '/' {
        assert(np == cur + name);
    } else {
        assert(np == cur + seq!['/'] + name);
    }
    assert(np.take(cur.len() as int) == cur);
    assert(np.take(root.len() as int) == cur.take(root.len() as int));
}

proof fn lemma_shown_names_listed(current: Seq<char>, l: Seq<RawView>)
    ensures
        forall|i: int| 0 <= i < shown_rows(current, l).len() ==> exists|k: int|
            0 <= k < l.len() && (#[trigger] l[k]).name == (#[trigger] shown_rows(current, l)[i]).name,
    decreases l.len(),
{
    if l.len() > 0 {
        let d = l.drop_last();
        lemma_shown_names_listed(current, d);
        assert forall|i: int| 0 <= i < shown_rows(current, l).len() implies exists|k: int|
            0 <= k < l.len() && (#[trigger] l[k]).name == (#[trigger] shown_rows(current, l)[i]).name by {
            if i < shown_rows(current, d).len() {
                let k = choose|k: int| 0 <= k < d.len() && (#[trigger] d[k]).name == shown_rows(current, d)[i].name;
                assert(l[k] == d[k]);
            } else {
                assert(l[l.len() - 1] == l.last());
            }
        }
    }
}

} // verus!
