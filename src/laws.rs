//! Laws of parsing and conversion, stated over the models that the
//! functions' contracts use.
use vstd::prelude::*;

use crate::error::ErrorModel;
use crate::exercise::{convert_view, parse_all_view, ExerciseModel, RowModel};
use crate::muscle::{
    canonical_name, equals_ignoring_ascii_case, group_named, is_ascii_text, lower_of,
    parse_ascii_view, parse_view, TargetMuscle,
};
use crate::repository::{fetch_view, FetchOutcome};

verus! {

/// A canonical name is ASCII, names exactly its own group, and parses to
/// that group (`parse(format(g)) == g`).
pub proof fn lemma_round_trip(g: TargetMuscle)
    ensures
        is_ascii_text(canonical_name(g)),
        group_named(canonical_name(g)) == Some(g),
        parse_ascii_view(canonical_name(g)) == Ok::<TargetMuscle, ErrorModel>(g),
{
    reveal_strlit("chest");
    reveal_strlit("back");
    reveal_strlit("shoulders");
    reveal_strlit("arms");
    reveal_strlit("core");
    reveal_strlit("legs");
    let n = canonical_name(g);
    assert(equals_ignoring_ascii_case(n, n));
    assert forall|h: TargetMuscle| h != g implies !equals_ignoring_ascii_case(
        n,
        canonical_name(h),
    ) by {
        let m = canonical_name(h);
        if n.len() == m.len() {
            assert(n[0] != m[0] || n[1] != m[1]);
        }
    }
}

/// Parsing ignores ASCII letter case: any ASCII text that equals a
/// canonical name up to case (`"CHEST"`, `"Chest"`) parses to that group.
pub proof fn lemma_parse_ignores_ascii_case(s: Seq<char>, g: TargetMuscle)
    requires
        is_ascii_text(s),
        equals_ignoring_ascii_case(s, canonical_name(g)),
    ensures
        parse_ascii_view(s) == Ok::<TargetMuscle, ErrorModel>(g),
{
    lemma_round_trip(g);
    assert forall|h: TargetMuscle| h != g implies !equals_ignoring_ascii_case(
        s,
        canonical_name(h),
    ) by {
        let n = canonical_name(g);
        let m = canonical_name(h);
        lemma_round_trip(h);
        if equals_ignoring_ascii_case(s, m) {
            assert(n =~= m) by {
                assert forall|i: int| 0 <= i < n.len() implies n[i] == m[i] by {
                    assert(n[i] as int == m[i] as int);
                }
            }
        }
    }
}

/// Text whose lowercase form is no canonical name fails to parse, with an
/// error that holds the text itself; for ASCII text, that is text equal to
/// no canonical name up to case (`"unknown"`, `""`, `"chests"`).
pub proof fn lemma_parse_rejects_unknown(s: Seq<char>)
    ensures
        (forall|g: TargetMuscle| lower_of(s) != #[trigger] canonical_name(g)) ==> parse_view(s)
            == Err::<TargetMuscle, ErrorModel>(ErrorModel::InvalidMuscleGroup(s)),
        (forall|g: TargetMuscle| !equals_ignoring_ascii_case(s, #[trigger] canonical_name(g)))
            ==> parse_ascii_view(s) == Err::<TargetMuscle, ErrorModel>(
            ErrorModel::InvalidMuscleGroup(s),
        ),
{
    assert(canonical_name(TargetMuscle::Chest) == canonical_name(TargetMuscle::Chest));
    assert(canonical_name(TargetMuscle::Back) == canonical_name(TargetMuscle::Back));
    assert(canonical_name(TargetMuscle::Shoulders) == canonical_name(TargetMuscle::Shoulders));
    assert(canonical_name(TargetMuscle::Arms) == canonical_name(TargetMuscle::Arms));
    assert(canonical_name(TargetMuscle::Core) == canonical_name(TargetMuscle::Core));
    assert(canonical_name(TargetMuscle::Legs) == canonical_name(TargetMuscle::Legs));
}

/// A row whose primary group parses and whose secondary list is empty
/// converts, with no secondary groups.
pub proof fn lemma_empty_secondary_groups(row: RowModel, g: TargetMuscle)
    requires
        parse_view(row.target_group) == Ok::<TargetMuscle, ErrorModel>(g),
        row.additional_groups.len() == 0,
    ensures
        convert_view(row) == Ok::<ExerciseModel, ErrorModel>(
            ExerciseModel {
                id: row.id,
                target_group: g,
                additional_groups: Seq::empty(),
                name: row.name,
            },
        ),
{
}

/// A row whose primary group does not parse fails with that group's text.
pub proof fn lemma_invalid_primary_group(row: RowModel)
    requires
        parse_view(row.target_group) is Err,
    ensures
        convert_view(row) == Err::<ExerciseModel, ErrorModel>(
            ErrorModel::InvalidMuscleGroup(row.target_group),
        ),
{
}

/// Secondary texts that all parse before position `k` make the prefix up to
/// `k` parse.
proof fn lemma_valid_prefix(texts: Seq<Seq<char>>, k: int)
    requires
        0 <= k <= texts.len(),
        forall|j: int| 0 <= j < k ==> #[trigger] parse_view(texts[j]) is Ok,
    ensures
        parse_all_view(texts.take(k)) is Ok,
    decreases k,
{
    if k > 0 {
        lemma_valid_prefix(texts, k - 1);
        assert(texts.take(k).drop_last() =~= texts.take(k - 1));
    }
}

/// A row whose primary group parses, and whose secondary groups parse up to
/// an invalid entry at position `k`, fails with the text of that entry,
/// whatever follows it.
pub proof fn lemma_first_invalid_secondary_group(row: RowModel, k: int)
    requires
        parse_view(row.target_group) is Ok,
        0 <= k < row.additional_groups.len(),
        forall|j: int| 0 <= j < k ==> #[trigger] parse_view(row.additional_groups[j]) is Ok,
        parse_view(row.additional_groups[k]) is Err,
    ensures
        convert_view(row) == Err::<ExerciseModel, ErrorModel>(
            ErrorModel::InvalidMuscleGroup(row.additional_groups[k]),
        ),
{
    let texts = row.additional_groups;
    lemma_valid_prefix(texts, k);
    assert(texts.take(k + 1).drop_last() =~= texts.take(k));
    crate::exercise::lemma_parse_all_error_sticks(texts, k + 1, texts.len() as int);
    assert(texts.take(texts.len() as int) =~= texts);
}

/// Looking up an id that has no row fails with `NotFound` for that id.
pub proof fn lemma_missing_row_not_found(id: i32)
    ensures
        fetch_view(id, FetchOutcome::Missing) == Err::<ExerciseModel, ErrorModel>(
            ErrorModel::NotFound(id),
        ),
{
}

} // verus!
