//! Accessors on their own: what each kind resolves to, and the laws of
//! their composition, on concrete states.

use rust_state::{
    ArrayLookupExt, BoxedExt, ComposeExt, ManuallyAssertExt, MapItem, MapLookupExt, OptionExt,
    Path, RootPath, Selector, StateMarker, VecIndexExt, VecItem, VecLookupExt,
};
use std::collections::HashMap;

#[derive(Debug, Clone, PartialEq, Eq)]
struct Entry {
    id: u32,
    val: u32,
}

// `id` and `id_equality` are ghost members: they exist for the verifier,
// and nothing calls them at run time.
impl VecItem for Entry {
    type Id = u32;

    fn id(&self) -> u32 {
        unreachable!()
    }

    fn id_equality() {}

    fn get_id(&self) -> u32 {
        self.id
    }
}

#[derive(Debug, Clone, PartialEq, Eq)]
struct Label(&'static str);

impl MapItem for Label {
    type Id = u32;

    fn id_is_a_key() {}
}

#[derive(Debug, Clone, PartialEq, Eq)]
struct Board {
    entries: Vec<Entry>,
    labels: HashMap<u32, Label>,
    best: Option<Entry>,
    pinned: Box<Entry>,
    slots: [u32; 3],
}

impl StateMarker for Board {}

fn board() -> Board {
    Board {
        entries: vec![
            Entry { id: 10, val: 1 },
            Entry { id: 20, val: 2 },
            Entry { id: 10, val: 3 },
        ],
        labels: HashMap::from([(10, Label("a")), (20, Label("b"))]),
        best: Some(Entry { id: 7, val: 70 }),
        pinned: Box::new(Entry { id: 9, val: 90 }),
        slots: [7, 8, 9],
    }
}

// Field accessors, written out by hand. In each, `resolve` and `replaces`
// are ghost members.

#[derive(Clone, Copy)]
struct Entries;

impl Selector<Board, Vec<Entry>, true> for Entries {
    fn resolve(&self, _: Board) -> Option<Vec<Entry>> {
        unreachable!()
    }

    fn select<'a>(&'a self, state: &'a Board) -> Option<&'a Vec<Entry>> {
        Some(&state.entries)
    }
}

impl Path<Board, Vec<Entry>, true> for Entries {
    fn replaces(&self, _: Board, _: Board, _: Vec<Entry>) -> bool {
        unreachable!()
    }

    fn follow<'a>(&self, state: &'a Board) -> Option<&'a Vec<Entry>> {
        Some(&state.entries)
    }

    fn follow_mut<'a>(&self, state: &'a mut Board) -> Option<&'a mut Vec<Entry>> {
        Some(&mut state.entries)
    }
}

#[derive(Clone, Copy)]
struct Labels;

impl Selector<Board, HashMap<u32, Label>, true> for Labels {
    fn resolve(&self, _: Board) -> Option<HashMap<u32, Label>> {
        unreachable!()
    }

    fn select<'a>(&'a self, state: &'a Board) -> Option<&'a HashMap<u32, Label>> {
        Some(&state.labels)
    }
}

impl Path<Board, HashMap<u32, Label>, true> for Labels {
    fn replaces(&self, _: Board, _: Board, _: HashMap<u32, Label>) -> bool {
        unreachable!()
    }

    fn follow<'a>(&self, state: &'a Board) -> Option<&'a HashMap<u32, Label>> {
        Some(&state.labels)
    }

    fn follow_mut<'a>(&self, state: &'a mut Board) -> Option<&'a mut HashMap<u32, Label>> {
        Some(&mut state.labels)
    }
}

#[derive(Clone, Copy)]
struct Best;

impl Selector<Board, Option<Entry>, true> for Best {
    fn resolve(&self, _: Board) -> Option<Option<Entry>> {
        unreachable!()
    }

    fn select<'a>(&'a self, state: &'a Board) -> Option<&'a Option<Entry>> {
        Some(&state.best)
    }
}

impl Path<Board, Option<Entry>, true> for Best {
    fn replaces(&self, _: Board, _: Board, _: Option<Entry>) -> bool {
        unreachable!()
    }

    fn follow<'a>(&self, state: &'a Board) -> Option<&'a Option<Entry>> {
        Some(&state.best)
    }

    fn follow_mut<'a>(&self, state: &'a mut Board) -> Option<&'a mut Option<Entry>> {
        Some(&mut state.best)
    }
}

#[derive(Clone, Copy)]
struct Pinned;

impl Selector<Board, Box<Entry>, true> for Pinned {
    fn resolve(&self, _: Board) -> Option<Box<Entry>> {
        unreachable!()
    }

    fn select<'a>(&'a self, state: &'a Board) -> Option<&'a Box<Entry>> {
        Some(&state.pinned)
    }
}

impl Path<Board, Box<Entry>, true> for Pinned {
    fn replaces(&self, _: Board, _: Board, _: Box<Entry>) -> bool {
        unreachable!()
    }

    fn follow<'a>(&self, state: &'a Board) -> Option<&'a Box<Entry>> {
        Some(&state.pinned)
    }

    fn follow_mut<'a>(&self, state: &'a mut Board) -> Option<&'a mut Box<Entry>> {
        Some(&mut state.pinned)
    }
}

#[derive(Clone, Copy)]
struct Slots;

impl Selector<Board, [u32; 3], true> for Slots {
    fn resolve(&self, _: Board) -> Option<[u32; 3]> {
        unreachable!()
    }

    fn select<'a>(&'a self, state: &'a Board) -> Option<&'a [u32; 3]> {
        Some(&state.slots)
    }
}

impl Path<Board, [u32; 3], true> for Slots {
    fn replaces(&self, _: Board, _: Board, _: [u32; 3]) -> bool {
        unreachable!()
    }

    fn follow<'a>(&self, state: &'a Board) -> Option<&'a [u32; 3]> {
        Some(&state.slots)
    }

    fn follow_mut<'a>(&self, state: &'a mut Board) -> Option<&'a mut [u32; 3]> {
        Some(&mut state.slots)
    }
}

#[derive(Clone, Copy)]
struct Val;

impl Selector<Entry, u32, true> for Val {
    fn resolve(&self, _: Entry) -> Option<u32> {
        unreachable!()
    }

    fn select<'a>(&'a self, state: &'a Entry) -> Option<&'a u32> {
        Some(&state.val)
    }
}

impl Path<Entry, u32, true> for Val {
    fn replaces(&self, _: Entry, _: Entry, _: u32) -> bool {
        unreachable!()
    }

    fn follow<'a>(&self, state: &'a Entry) -> Option<&'a u32> {
        Some(&state.val)
    }

    fn follow_mut<'a>(&self, state: &'a mut Entry) -> Option<&'a mut u32> {
        Some(&mut state.val)
    }
}

fn root() -> RootPath<Board> {
    RootPath::new()
}

/// Accepts only paths tagged as guaranteed.
fn follow_guaranteed<To: Clone, P: Path<Board, To, true>>(path: P, state: &Board) -> Option<To> {
    path.follow(state).cloned()
}

/// Accepts only paths tagged as fallible.
fn follow_fallible<To: Clone, P: Path<Board, To, false>>(path: P, state: &Board) -> Option<To> {
    path.follow(state).cloned()
}

#[test]
fn root_resolves_to_the_state_itself() {
    let mut state = board();
    assert_eq!(root().follow(&state), Some(&board()));
    assert_eq!(root().select(&state), Some(&board()));
    let target = root().follow_mut(&mut state).unwrap();
    target.slots = [0, 0, 0];
    assert_eq!(state.slots, [0, 0, 0]);
}

#[test]
fn a_value_selects_itself_whatever_the_state() {
    let state = board();
    let literal = 42u32;
    let found: Option<&u32> = Selector::<Board, u32, true>::select(&literal, &state);
    assert_eq!(found, Some(&42));
}

#[test]
fn a_field_accessor_reads_and_writes_its_field() {
    let mut state = board();
    let path = root().compose(Entries);
    assert_eq!(path.follow(&state).map(|entries| entries.len()), Some(3));
    path.follow_mut(&mut state).unwrap().clear();
    assert_eq!(state.entries, vec![]);
}

#[test]
fn vec_index_resolves_inside_the_bounds() {
    let mut state = board();
    let path = root().compose(Entries).index(1);
    assert_eq!(path.follow(&state), Some(&Entry { id: 20, val: 2 }));
    assert_eq!(path.select(&state), Some(&Entry { id: 20, val: 2 }));
    path.follow_mut(&mut state).unwrap().val = 22;
    assert_eq!(
        state.entries,
        vec![Entry { id: 10, val: 1 }, Entry { id: 20, val: 22 }, Entry { id: 10, val: 3 }]
    );
}

#[test]
fn vec_index_fails_at_and_beyond_the_length() {
    let mut state = board();
    let at_length = root().compose(Entries).index(3);
    let beyond = root().compose(Entries).index(5);
    assert_eq!(at_length.follow(&state), None);
    assert_eq!(beyond.follow(&state), None);
    assert_eq!(beyond.select(&state), None::<&Entry>);
    assert!(beyond.follow_mut(&mut state).is_none());
    assert_eq!(state, board());
}

#[test]
fn vec_index_fails_on_an_empty_vec() {
    let mut state = Board { entries: vec![], ..board() };
    let path = root().compose(Entries).index(0);
    assert_eq!(path.follow(&state), None);
    assert!(path.follow_mut(&mut state).is_none());
    assert_eq!(root().compose(Entries).lookup(10).follow(&state), None);
}

#[test]
fn vec_index_reaches_the_first_and_the_last_element() {
    let state = board();
    assert_eq!(root().compose(Entries).index(0).follow(&state), Some(&Entry { id: 10, val: 1 }));
    assert_eq!(root().compose(Entries).index(2).follow(&state), Some(&Entry { id: 10, val: 3 }));
}

#[test]
fn array_index_reaches_the_first_and_the_last_element() {
    let state = board();
    assert_eq!(root().compose(Slots).array_index(0).follow(&state), Some(&7));
    assert_eq!(root().compose(Slots).array_index(2).follow(&state), Some(&9));
    assert_eq!(root().compose(Slots).array_index(usize::MAX).follow(&state), None);
}

#[test]
fn vec_lookup_finds_the_first_element_with_the_identity() {
    let mut state = board();
    let path = root().compose(Entries).lookup(10);
    assert_eq!(path.follow(&state), Some(&Entry { id: 10, val: 1 }));
    path.follow_mut(&mut state).unwrap().val = 11;
    assert_eq!(state.entries[0], Entry { id: 10, val: 11 });
    assert_eq!(state.entries[2], Entry { id: 10, val: 3 });
}

#[test]
fn vec_lookup_fails_when_no_element_has_the_identity() {
    let mut state = board();
    let path = root().compose(Entries).lookup(99);
    assert_eq!(path.follow(&state), None);
    assert_eq!(path.select(&state), None::<&Entry>);
    assert!(path.follow_mut(&mut state).is_none());
    assert_eq!(state, board());
}

#[test]
fn vec_lookup_follows_an_element_that_moved() {
    let mut state = board();
    let path = root().compose(Entries).lookup(20);
    state.entries.remove(0);
    assert_eq!(path.follow(&state), Some(&Entry { id: 20, val: 2 }));
}

#[test]
fn map_lookup_resolves_a_present_key() {
    let mut state = board();
    let path = root().compose(Labels).lookup(20);
    assert_eq!(path.follow(&state), Some(&Label("b")));
    assert_eq!(path.select(&state), Some(&Label("b")));
    *path.follow_mut(&mut state).unwrap() = Label("c");
    assert_eq!(state.labels, HashMap::from([(10, Label("a")), (20, Label("c"))]));
}

#[test]
fn map_lookup_fails_on_an_absent_key() {
    let mut state = board();
    let path = root().compose(Labels).lookup(30);
    assert_eq!(path.follow(&state), None);
    assert!(path.follow_mut(&mut state).is_none());
    assert_eq!(state, board());
}

#[test]
fn option_unwrapped_resolves_a_present_value() {
    let mut state = board();
    let path = root().compose(Best).unwrapped();
    assert_eq!(path.follow(&state), Some(&Entry { id: 7, val: 70 }));
    path.follow_mut(&mut state).unwrap().val = 71;
    assert_eq!(state.best, Some(Entry { id: 7, val: 71 }));
}

#[test]
fn option_unwrapped_fails_on_an_empty_option() {
    let mut state = board();
    state.best = None;
    let path = root().compose(Best).unwrapped();
    assert_eq!(path.follow(&state), None);
    assert_eq!(path.select(&state), None::<&Entry>);
    assert!(path.follow_mut(&mut state).is_none());
    assert_eq!(state.best, None);
}

#[test]
fn unboxed_reaches_the_boxed_value() {
    let mut state = board();
    let path = root().compose(Pinned).unboxed();
    assert_eq!(path.follow(&state), Some(&Entry { id: 9, val: 90 }));
    assert_eq!(path.select(&state), Some(&Entry { id: 9, val: 90 }));
    path.follow_mut(&mut state).unwrap().val = 91;
    assert_eq!(*state.pinned, Entry { id: 9, val: 91 });
}

#[test]
fn array_index_resolves_inside_the_bounds() {
    let mut state = board();
    let path = root().compose(Slots).array_index(1);
    assert_eq!(path.follow(&state), Some(&8));
    *path.follow_mut(&mut state).unwrap() = 80;
    assert_eq!(state.slots, [7, 80, 9]);
}

#[test]
fn array_index_fails_beyond_the_length() {
    let mut state = board();
    let path = root().compose(Slots).array_index(3);
    assert_eq!(path.follow(&state), None);
    assert_eq!(path.select(&state), None::<&u32>);
    assert!(path.follow_mut(&mut state).is_none());
    assert_eq!(state.slots, [7, 8, 9]);
}

#[test]
fn a_promoted_path_navigates_as_the_path_it_wraps() {
    let mut state = board();
    let fallible = root().compose(Entries).lookup(20);
    let promoted = fallible.manually_asserted();
    assert_eq!(promoted.follow(&state), fallible.follow(&state));
    assert_eq!(promoted.select(&state), Some(&Entry { id: 20, val: 2 }));
    promoted.follow_mut(&mut state).unwrap().val = 5;
    assert_eq!(state.entries[1].val, 5);
    let missing = root().compose(Entries).lookup(99).manually_asserted();
    assert_eq!(missing.follow(&state), None);
}

#[test]
fn accessors_are_copied_freely() {
    let state = board();
    let path = root().compose(Entries).index(0).compose(Val);
    let copy = path;
    let clone = path.clone();
    assert_eq!(path.follow(&state), Some(&1));
    assert_eq!(copy.follow(&state), Some(&1));
    assert_eq!(clone.follow(&state), Some(&1));
}

#[test]
fn composition_is_associative() {
    let left = root().compose(Entries).compose(rust_state::VecIndex { index: 1 }).compose(Val);
    let right = root().compose(
        Entries.compose(rust_state::VecIndex { index: 1 }.compose(Val)),
    );
    let missing_left =
        root().compose(Entries).compose(rust_state::VecIndex { index: 8 }).compose(Val);
    let missing_right = root().compose(
        Entries.compose(rust_state::VecIndex { index: 8 }.compose(Val)),
    );
    let state = board();
    assert_eq!(follow_fallible(left, &state), Some(2));
    assert_eq!(follow_fallible(right, &state), Some(2));
    assert_eq!(follow_fallible(missing_left, &state), None);
    assert_eq!(follow_fallible(missing_right, &state), None);

    let mut by_left = board();
    let mut by_right = board();
    *left.follow_mut(&mut by_left).unwrap() = 200;
    *right.follow_mut(&mut by_right).unwrap() = 200;
    assert_eq!(by_left, by_right);
    assert_eq!(by_left.entries[1], Entry { id: 20, val: 200 });
}

#[test]
fn the_root_is_a_left_identity() {
    let alone = Entries.compose(rust_state::VecIndex { index: 2 });
    let rooted = root().compose(alone);
    let state = board();
    assert_eq!(follow_fallible(alone, &state), Some(Entry { id: 10, val: 3 }));
    assert_eq!(follow_fallible(rooted, &state), Some(Entry { id: 10, val: 3 }));

    let mut by_alone = board();
    let mut by_rooted = board();
    alone.follow_mut(&mut by_alone).unwrap().val = 33;
    rooted.follow_mut(&mut by_rooted).unwrap().val = 33;
    assert_eq!(by_alone, by_rooted);

    let guaranteed = root().compose(Slots);
    assert_eq!(follow_guaranteed(guaranteed, &state), follow_guaranteed(Slots, &state));
}

#[test]
fn a_composition_is_guaranteed_exactly_when_both_parts_are() {
    let state = board();
    // guaranteed with guaranteed
    assert_eq!(follow_guaranteed(root().compose(Pinned), &state), Some(state.pinned.clone()));
    assert_eq!(
        follow_guaranteed(root().compose(Pinned).unboxed().compose(Val), &state),
        Some(90)
    );
    // guaranteed with fallible
    assert_eq!(follow_fallible(root().compose(Best).unwrapped(), &state), state.best.clone());
    // fallible with guaranteed
    assert_eq!(follow_fallible(root().compose(Best).unwrapped().compose(Val), &state), Some(70));
    // fallible with fallible
    assert_eq!(
        follow_fallible(root().compose(Best).unwrapped().compose(Val).compose(Fallibly), &state),
        Some(70)
    );
    // a promoted path counts as guaranteed, and composes as such
    assert_eq!(
        follow_guaranteed(root().compose(Entries).index(0).manually_asserted().compose(Val), &state),
        Some(1)
    );
}

/// A fallible accessor from a `u32` to itself, for composing two fallible
/// parts.
#[derive(Clone, Copy)]
struct Fallibly;

impl Selector<u32, u32, false> for Fallibly {
    fn resolve(&self, _: u32) -> Option<u32> {
        unreachable!()
    }

    fn select<'a>(&'a self, state: &'a u32) -> Option<&'a u32> {
        Some(state)
    }
}

impl Path<u32, u32, false> for Fallibly {
    fn replaces(&self, _: u32, _: u32, _: u32) -> bool {
        unreachable!()
    }

    fn follow<'a>(&self, state: &'a u32) -> Option<&'a u32> {
        Some(state)
    }

    fn follow_mut<'a>(&self, state: &'a mut u32) -> Option<&'a mut u32> {
        Some(state)
    }
}

#[test]
fn reading_and_writing_agree_on_whether_the_target_exists() {
    let states = [board(), Board { best: None, entries: vec![], ..board() }];
    for state in states {
        let mut scratch = state.clone();
        assert_eq!(
            root().compose(Entries).index(0).follow(&state).is_some(),
            root().compose(Entries).index(0).follow_mut(&mut scratch).is_some()
        );
        assert_eq!(
            root().compose(Entries).lookup(20).follow(&state).is_some(),
            root().compose(Entries).lookup(20).follow_mut(&mut scratch).is_some()
        );
        assert_eq!(
            root().compose(Best).unwrapped().compose(Val).follow(&state).is_some(),
            root().compose(Best).unwrapped().compose(Val).follow_mut(&mut scratch).is_some()
        );
        assert_eq!(
            root().compose(Labels).lookup(10).follow(&state).is_some(),
            root().compose(Labels).lookup(10).follow_mut(&mut scratch).is_some()
        );
        assert_eq!(
            root().compose(Slots).array_index(2).follow(&state).is_some(),
            root().compose(Slots).array_index(2).follow_mut(&mut scratch).is_some()
        );
        assert_eq!(scratch, state);
    }
}

#[test]
fn a_failed_navigation_deep_in_a_chain_leaves_the_state_alone() {
    let mut state = board();
    state.best = None;
    let expected = state.clone();
    let path = root().compose(Best).unwrapped().compose(Val);
    assert!(path.follow_mut(&mut state).is_none());
    assert_eq!(state, expected);
}
