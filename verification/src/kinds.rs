//! Selecting tiles by kind: the tests behind regeneration, and what they do
//! to sequences of tiles.

use vstd::prelude::*;
use crate::tile::{PlacedTile, TileKind};

verus! {

/// The test that keeps the tiles of every kind but `kind`.
pub open spec fn is_not(kind: TileKind) -> spec_fn(PlacedTile) -> bool {
    |tile: PlacedTile| tile.kind != kind
}

/// The test that keeps the tiles of kind `kind`.
pub open spec fn is_of(kind: TileKind) -> spec_fn(PlacedTile) -> bool {
    |tile: PlacedTile| tile.kind == kind
}

/// `tiles` without the tiles of kind `kind`.
pub open spec fn without(tiles: Seq<PlacedTile>, kind: TileKind) -> Seq<PlacedTile> {
    tiles.filter(is_not(kind))
}

/// The tiles of kind `kind` among `tiles`.
pub open spec fn only(tiles: Seq<PlacedTile>, kind: TileKind) -> Seq<PlacedTile> {
    tiles.filter(is_of(kind))
}

/// Whether every one of `tiles` is of kind `kind`.
pub open spec fn all_of(tiles: Seq<PlacedTile>, kind: TileKind) -> bool {
    forall|i: int| 0 <= i < tiles.len() ==> (#[trigger] tiles[i]).kind == kind
}

/// Whether none of `tiles` is of kind `kind`.
pub open spec fn none_of(tiles: Seq<PlacedTile>, kind: TileKind) -> bool {
    forall|i: int| 0 <= i < tiles.len() ==> (#[trigger] tiles[i]).kind != kind
}

/// Whether every one of `tiles` is well-formed.
pub open spec fn all_placed(tiles: Seq<PlacedTile>) -> bool {
    forall|i: int| 0 <= i < tiles.len() ==> (#[trigger] tiles[i]).wf()
}

/// A filter keeps a sequence whole when every element passes.
pub(crate) proof fn lemma_filter_keeps_all<A>(s: Seq<A>, pred: spec_fn(A) -> bool)
    requires
        forall|i: int| 0 <= i < s.len() ==> pred(#[trigger] s[i]),
    ensures
        s.filter(pred) == s,
    decreases s.len(),
{
    reveal(Seq::filter);
    if s.len() > 0 {
        lemma_filter_keeps_all(s.drop_last(), pred);
        assert(s.drop_last().push(s.last()) =~= s);
    }
}

/// A filter leaves nothing when no element passes.
pub(crate) proof fn lemma_filter_drops_all<A>(s: Seq<A>, pred: spec_fn(A) -> bool)
    requires
        forall|i: int| 0 <= i < s.len() ==> !pred(#[trigger] s[i]),
    ensures
        s.filter(pred) == Seq::<A>::empty(),
    decreases s.len(),
{
    reveal(Seq::filter);
    if s.len() > 0 {
        lemma_filter_drops_all(s.drop_last(), pred);
    }
}

/// Every element of a filtered sequence passes the filter.
pub(crate) proof fn lemma_filter_passes<A>(s: Seq<A>, pred: spec_fn(A) -> bool)
    ensures
        forall|i: int| 0 <= i < s.filter(pred).len() ==> pred(#[trigger] s.filter(pred)[i]),
{
    assert forall|i: int| 0 <= i < s.filter(pred).len() implies pred(
        #[trigger] s.filter(pred)[i],
    ) by {
        s.lemma_filter_pred(pred, i);
    }
}

/// Filtering by one test and then by another is filtering by both; so the
/// order of the two does not matter.
pub(crate) proof fn lemma_filters_commute<A>(
    s: Seq<A>,
    first: spec_fn(A) -> bool,
    second: spec_fn(A) -> bool,
)
    ensures
        s.filter(first).filter(second) == s.filter(second).filter(first),
    decreases s.len(),
{
    reveal(Seq::filter);
    if s.len() > 0 {
        let rest = s.drop_last();
        lemma_filters_commute(rest, first, second);
        rest.filter(first).lemma_filter_push(s.last(), second);
        rest.filter(second).lemma_filter_push(s.last(), first);
    }
}

/// Removing the tiles of one kind leaves the tiles of every other kind as
/// they were.
pub(crate) proof fn lemma_without_keeps_other_kind(
    tiles: Seq<PlacedTile>,
    gone: TileKind,
    kept: TileKind,
)
    requires
        gone != kept,
    ensures
        only(without(tiles, gone), kept) == only(tiles, kept),
{
    lemma_filters_commute(tiles, is_not(gone), is_of(kept));
    lemma_filter_passes(tiles, is_of(kept));
    lemma_filter_keeps_all(only(tiles, kept), is_not(gone));
}

/// Removing the tiles of one kind twice is removing them once.
pub(crate) proof fn lemma_without_twice(tiles: Seq<PlacedTile>, kind: TileKind)
    ensures
        without(without(tiles, kind), kind) == without(tiles, kind),
        only(without(tiles, kind), kind) == Seq::<PlacedTile>::empty(),
{
    lemma_filter_passes(tiles, is_not(kind));
    lemma_filter_keeps_all(without(tiles, kind), is_not(kind));
    lemma_filter_drops_all(without(tiles, kind), is_of(kind));
}

/// Tiles that are all of one kind pass the test for that kind and fail
/// the test against it.
pub(crate) proof fn lemma_all_of_kind(tiles: Seq<PlacedTile>, kind: TileKind)
    requires
        all_of(tiles, kind),
    ensures
        only(tiles, kind) == tiles,
        without(tiles, kind) == Seq::<PlacedTile>::empty(),
{
    lemma_filter_keeps_all(tiles, is_of(kind));
    lemma_filter_drops_all(tiles, is_not(kind));
}

/// Tiles none of which is of one kind fail the test for that kind and pass
/// the test against it.
pub(crate) proof fn lemma_none_of_kind(tiles: Seq<PlacedTile>, kind: TileKind)
    requires
        none_of(tiles, kind),
    ensures
        only(tiles, kind) == Seq::<PlacedTile>::empty(),
        without(tiles, kind) == tiles,
{
    lemma_filter_drops_all(tiles, is_of(kind));
    lemma_filter_keeps_all(tiles, is_not(kind));
}

/// Both tests go through a concatenation part by part.
pub(crate) proof fn lemma_kind_tests_add(
    first: Seq<PlacedTile>,
    second: Seq<PlacedTile>,
    kind: TileKind,
)
    ensures
        only(first + second, kind) == only(first, kind) + only(second, kind),
        without(first + second, kind) == without(first, kind) + without(second, kind),
{
    Seq::filter_distributes_over_add(first, second, is_of(kind));
    Seq::filter_distributes_over_add(first, second, is_not(kind));
}

/// Tiles that are all of one kind hold none of another.
pub(crate) proof fn lemma_all_of_excludes(tiles: Seq<PlacedTile>, kind: TileKind, other: TileKind)
    requires
        all_of(tiles, kind),
        other != kind,
    ensures
        none_of(tiles, other),
{
}

/// A concatenation holds no tile of a kind when neither part does.
pub(crate) proof fn lemma_none_of_add(
    first: Seq<PlacedTile>,
    second: Seq<PlacedTile>,
    kind: TileKind,
)
    requires
        none_of(first, kind),
        none_of(second, kind),
    ensures
        none_of(first + second, kind),
{
}

/// A concatenation of well-formed tiles is well-formed.
pub(crate) proof fn lemma_all_placed_add(first: Seq<PlacedTile>, second: Seq<PlacedTile>)
    requires
        all_placed(first),
        all_placed(second),
    ensures
        all_placed(first + second),
{
}

/// Removing tiles leaves the rest well-formed.
pub(crate) proof fn lemma_all_placed_without(tiles: Seq<PlacedTile>, kind: TileKind)
    requires
        all_placed(tiles),
    ensures
        all_placed(without(tiles, kind)),
{
    let kept = without(tiles, kind);
    assert forall|i: int| 0 <= i < kept.len() implies (#[trigger] kept[i]).wf() by {
        assert(kept.contains(kept[i]));
        tiles.lemma_filter_contains_rev(is_not(kind), kept[i]);
        let j = choose|j: int| 0 <= j < tiles.len() && tiles[j] == kept[i];
        assert(tiles[j].wf());
    }
}

} // verus!
