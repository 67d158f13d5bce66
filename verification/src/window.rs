//! Finding the detector's own window in the window tree, to keep it on top.
use vstd::prelude::*;

verus! {

/// A window of the window tree: its id (0 is no window), its title when the
/// window has one, and its child windows in stacking order.
pub struct WindowNode {
    pub id: u64,
    pub title: Option<Vec<char>>,
    pub children: Vec<WindowNode>,
}

/// `needle` occurs in `hay` as a contiguous run.
pub open spec fn occurs_in(needle: Seq<char>, hay: Seq<char>) -> bool {
    exists|i: int| 0 <= i && i + needle.len() <= hay.len() && #[trigger] hay.subrange(i, i + needle.len()) == needle
}

impl WindowNode {
    /// The window has a title in which `needle` occurs.
    pub open spec fn title_has(self, needle: Seq<char>) -> bool {
        self.title matches Some(t) && occurs_in(needle, t@)
    }
}

/// The result of searching the windows `cs[i..]` and their descendants for a
/// title holding `needle`: for each window in turn, a match among its
/// descendants comes first, then the window itself; the first hit ends the
/// search and 0 stands for none.
pub open spec fn search_from(cs: Seq<WindowNode>, i: int, needle: Seq<char>) -> u64
    decreases cs, cs.len() - i,
{
    if 0 <= i < cs.len() {
        let sub = search_from(cs[i].children@, 0, needle);
        if sub != 0 {
            sub
        } else if cs[i].title_has(needle) {
            cs[i].id
        } else {
            search_from(cs, i + 1, needle)
        }
    } else {
        0
    }
}

/// Some window among `cs[i..]` and their descendants has id `id` and a title
/// holding `needle`.
pub open spec fn has_match_with_id(cs: Seq<WindowNode>, i: int, needle: Seq<char>, id: u64) -> bool
    decreases cs, cs.len() - i,
{
    if 0 <= i < cs.len() {
        ||| (cs[i].id == id && cs[i].title_has(needle))
        ||| has_match_with_id(cs[i].children@, 0, needle, id)
        ||| has_match_with_id(cs, i + 1, needle, id)
    } else {
        false
    }
}

/// Some window among `cs[i..]` and their descendants has a title holding
/// `needle`.
pub open spec fn has_match(cs: Seq<WindowNode>, i: int, needle: Seq<char>) -> bool
    decreases cs, cs.len() - i,
{
    if 0 <= i < cs.len() {
        ||| cs[i].title_has(needle)
        ||| has_match(cs[i].children@, 0, needle)
        ||| has_match(cs, i + 1, needle)
    } else {
        false
    }
}

/// Every window among `cs[i..]` and their descendants has a non-zero id.
pub open spec fn ids_nonzero(cs: Seq<WindowNode>, i: int) -> bool
    decreases cs, cs.len() - i,
{
    if 0 <= i < cs.len() {
        &&& cs[i].id != 0
        &&& ids_nonzero(cs[i].children@, 0)
        &&& ids_nonzero(cs, i + 1)
    } else {
        true
    }
}

proof fn lemma_search_sound(cs: Seq<WindowNode>, i: int, needle: Seq<char>)
    ensures
        search_from(cs, i, needle) != 0 ==> has_match_with_id(cs, i, needle, search_from(cs, i, needle)),
    decreases cs, cs.len() - i,
{
    if 0 <= i < cs.len() {
        assert(decreases_to!(cs => cs[i].children@)) by {
            assert(decreases_to!(cs => cs[i]));
            assert(decreases_to!(cs[i] => cs[i].children));
            assert(decreases_to!(cs[i].children => cs[i].children@));
        }
        lemma_search_sound(cs[i].children@, 0, needle);
        lemma_search_sound(cs, i + 1, needle);
    }
}

proof fn lemma_search_complete(cs: Seq<WindowNode>, i: int, needle: Seq<char>)
    requires
        ids_nonzero(cs, i),
    ensures
        (search_from(cs, i, needle) == 0) == !has_match(cs, i, needle),
    decreases cs, cs.len() - i,
{
    if 0 <= i < cs.len() {
        assert(decreases_to!(cs => cs[i].children@)) by {
            assert(decreases_to!(cs => cs[i]));
            assert(decreases_to!(cs[i] => cs[i].children));
            assert(decreases_to!(cs[i].children => cs[i].children@));
        }
        lemma_search_complete(cs[i].children@, 0, needle);
        lemma_search_complete(cs, i + 1, needle);
    }
}

proof fn lemma_match_with_id_is_match(cs: Seq<WindowNode>, i: int, needle: Seq<char>, id: u64)
    ensures
        has_match_with_id(cs, i, needle, id) ==> has_match(cs, i, needle),
    decreases cs, cs.len() - i,
{
    if 0 <= i < cs.len() {
        assert(decreases_to!(cs => cs[i].children@)) by {
            assert(decreases_to!(cs => cs[i]));
            assert(decreases_to!(cs[i] => cs[i].children));
            assert(decreases_to!(cs[i].children => cs[i].children@));
        }
        lemma_match_with_id_is_match(cs[i].children@, 0, needle, id);
        lemma_match_with_id_is_match(cs, i + 1, needle, id);
    }
}

proof fn lemma_no_match_finds_nothing(cs: Seq<WindowNode>, i: int, needle: Seq<char>)
    ensures
        !has_match(cs, i, needle) ==> search_from(cs, i, needle) == 0,
{
    lemma_search_sound(cs, i, needle);
    lemma_match_with_id_is_match(cs, i, needle, search_from(cs, i, needle));
}

proof fn lemma_skip_unmatched(cs: Seq<WindowNode>, i: int, k: int, needle: Seq<char>)
    requires
        0 <= i <= k < cs.len(),
        forall|j: int|
            i <= j < k ==> !has_match(#[trigger] cs[j].children@, 0, needle) && !cs[j].title_has(
                needle,
            ),
    ensures
        search_from(cs, i, needle) == search_from(cs, k, needle),
    decreases k - i,
{
    if i < k {
        lemma_no_match_finds_nothing(cs[i].children@, 0, needle);
        lemma_skip_unmatched(cs, i + 1, k, needle);
    }
}

proof fn lemma_ids_nonzero_below(cs: Seq<WindowNode>, i: int, k: int)
    requires
        0 <= i <= k < cs.len(),
        ids_nonzero(cs, i),
    ensures
        ids_nonzero(cs[k].children@, 0),
    decreases k - i,
{
    if i < k {
        lemma_ids_nonzero_below(cs, i + 1, k);
    }
}

/// The search takes the first match of a depth-first walk of the children
/// of `root` in stacking order, each child's descendants before the child
/// itself: when the children before child `k` hold no match, neither in
/// their titles nor among their descendants, then a match among the
/// descendants of child `k` is what `find_window_by_title` returns, and
/// otherwise a title of child `k` that holds the searched title makes
/// child `k` the result.
pub proof fn search_takes_first_match(root: WindowNode, title: Seq<char>, k: int)
    requires
        ids_nonzero(root.children@, 0),
        0 <= k < root.children@.len(),
        forall|j: int|
            0 <= j < k ==> !has_match(#[trigger] root.children@[j].children@, 0, title)
                && !root.children@[j].title_has(title),
    ensures
        has_match(root.children@[k].children@, 0, title) ==> has_match_with_id(
            root.children@[k].children@,
            0,
            title,
            search_from(root.children@, 0, title),
        ),
        !has_match(root.children@[k].children@, 0, title) && root.children@[k].title_has(title)
            ==> search_from(root.children@, 0, title) == root.children@[k].id,
{
    let cs = root.children@;
    lemma_skip_unmatched(cs, 0, k, title);
    lemma_ids_nonzero_below(cs, 0, k);
    lemma_search_complete(cs[k].children@, 0, title);
    lemma_search_sound(cs[k].children@, 0, title);
}

/// A window found by `find_window_by_title` is a descendant of `root` whose
/// title holds the searched title.
pub proof fn found_window_has_title(root: WindowNode, title: Seq<char>)
    ensures
        search_from(root.children@, 0, title) != 0 ==> has_match_with_id(
            root.children@,
            0,
            title,
            search_from(root.children@, 0, title),
        ),
{
    lemma_search_sound(root.children@, 0, title);
}

/// When every window id is non-zero, `find_window_by_title` finds nothing
/// exactly when no descendant of `root` has a title holding the searched
/// title.
pub proof fn search_misses_only_without_match(root: WindowNode, title: Seq<char>)
    requires
        ids_nonzero(root.children@, 0),
    ensures
        (search_from(root.children@, 0, title) == 0) == !has_match(root.children@, 0, title),
{
    lemma_search_complete(root.children@, 0, title);
}

/// The title that the detector's window carries.
pub open spec fn app_title() -> Seq<char> {
    seq!['C', 'o', 'l', 'o', 'r', ' ', 'C', 'l', 'i', 'c', 'k', 'e', 'r']
}

/// Whether `needle` occurs in `hay`.
pub fn occurs(needle: &Vec<char>, hay: &Vec<char>) -> (b: bool)
    ensures
        b == occurs_in(needle@, hay@),
{
    let n: usize = needle.len();
    let h: usize = hay.len();
    if n > h {
        assert(!occurs_in(needle@, hay@));
        return false;
    }
    let mut i: usize = 0;
    while i <= h - n
        invariant
            n == needle@.len(),
            h == hay@.len(),
            n <= h,
            i <= h - n + 1,
            forall|p: int| 0 <= p < i ==> #[trigger] hay@.subrange(p, p + n) != needle@,
        decreases h - n + 1 - i,
    {
        let mut j: usize = 0;
        let mut same: bool = true;
        while j < n
            invariant
                n == needle@.len(),
                h == hay@.len(),
                i + n <= h,
                j <= n,
                same <==> forall|q: int| 0 <= q < j ==> hay@[i + q] == needle@[q],
            decreases n - j,
        {
            if hay[i + j] != needle[j] {
                same = false;
            }
            j = j + 1;
        }
        if same {
            assert(hay@.subrange(i as int, i + n) =~= needle@);
            return true;
        }
        assert(hay@.subrange(i as int, i + n) != needle@) by {
            let q = choose|q: int| 0 <= q < n && hay@[i + q] != needle@[q];
            assert(hay@.subrange(i as int, i + n)[q] == hay@[i + q]);
        }
        i = i + 1;
    }
    false
}

fn search_children(cs: &Vec<WindowNode>, needle: &Vec<char>) -> (id: u64)
    ensures
        id == search_from(cs@, 0, needle@),
    decreases cs@,
{
    let mut i: usize = 0;
    while i < cs.len()
        invariant
            i <= cs@.len(),
            search_from(cs@, 0, needle@) == search_from(cs@, i as int, needle@),
        decreases cs@.len() - i,
    {
        assert(decreases_to!(cs@ => cs@[i as int].children@)) by {
            assert(decreases_to!(cs@ => cs@[i as int]));
            assert(decreases_to!(cs@[i as int] => cs@[i as int].children));
            assert(decreases_to!(cs@[i as int].children => cs@[i as int].children@));
        }
        let sub = search_children(&cs[i].children, needle);
        if sub != 0 {
            return sub;
        }
        let hit = match &cs[i].title {
            Some(t) => occurs(needle, t),
            None => false,
        };
        if hit {
            return cs[i].id;
        }
        i = i + 1;
    }
    0
}

/// Searches the descendants of `root` for a window whose title holds
/// `title`, as `search_from` orders them; 0 when none is found.
pub fn find_window_by_title(root: &WindowNode, title: &Vec<char>) -> (id: u64)
    ensures
        id == search_from(root.children@, 0, title@),
{
    search_children(&root.children, title)
}

/// Picks the window to raise above all others: the descendant of `root`
/// whose title holds the detector's title, or `None` when there is none.
pub fn set_always_on_top(root: &WindowNode) -> (w: Option<u64>)
    ensures
        w == (if search_from(root.children@, 0, app_title()) == 0 {
            None
        } else {
            Some(search_from(root.children@, 0, app_title()))
        }),
{
    let title: Vec<char> = vec!['C', 'o', 'l', 'o', 'r', ' ', 'C', 'l', 'i', 'c', 'k', 'e', 'r'];
    assert(title@ =~= app_title());
    let id = find_window_by_title(root, &title);
    if id != 0 {
        Some(id)
    } else {
        None
    }
}

/// Keeps the detector's window on top: the window that `set_always_on_top`
/// picks.
pub fn enforce_always_on_top(root: &WindowNode) -> (w: Option<u64>)
    ensures
        w == (if search_from(root.children@, 0, app_title()) == 0 {
            None
        } else {
            Some(search_from(root.children@, 0, app_title()))
        }),
{
    set_always_on_top(root)
}

/// Whether the "always above" window state can be set: both property atoms
/// were found.
pub fn can_mark_above(net_wm_state: u64, net_wm_state_above: u64) -> (b: bool)
    ensures
        b == (net_wm_state != 0 && net_wm_state_above != 0),
{
    net_wm_state != 0 && net_wm_state_above != 0
}

} // verus!
