//! The closed set of muscle groups, their canonical names, and the one
//! validating parser from text.
use vstd::prelude::*;

use crate::error::{ErrorModel, ExerciseError};

verus! {

/// One of the six muscle groups an exercise can target.
#[derive(Debug, Clone, Copy, PartialEq, Eq, Structural)]
pub enum TargetMuscle {
    Chest,
    Back,
    Shoulders,
    Arms,
    Core,
    Legs,
}

/// The canonical, lowercase name of a muscle group.
pub open spec fn canonical_name(g: TargetMuscle) -> Seq<char> {
    match g {
        TargetMuscle::Chest => "chest"@,
        TargetMuscle::Back => "back"@,
        TargetMuscle::Shoulders => "shoulders"@,
        TargetMuscle::Arms => "arms"@,
        TargetMuscle::Core => "core"@,
        TargetMuscle::Legs => "legs"@,
    }
}

/// The muscle group whose canonical name is exactly `s`, if any.
pub open spec fn group_named(s: Seq<char>) -> Option<TargetMuscle> {
    if s == canonical_name(TargetMuscle::Chest) {
        Some(TargetMuscle::Chest)
    } else if s == canonical_name(TargetMuscle::Back) {
        Some(TargetMuscle::Back)
    } else if s == canonical_name(TargetMuscle::Shoulders) {
        Some(TargetMuscle::Shoulders)
    } else if s == canonical_name(TargetMuscle::Arms) {
        Some(TargetMuscle::Arms)
    } else if s == canonical_name(TargetMuscle::Core) {
        Some(TargetMuscle::Core)
    } else if s == canonical_name(TargetMuscle::Legs) {
        Some(TargetMuscle::Legs)
    } else {
        None
    }
}

/// The result of parsing `raw`, given the lowercase form `lowered` of it.
pub open spec fn parse_lowered_view(lowered: Seq<char>, raw: Seq<char>) -> Result<
    TargetMuscle,
    ErrorModel,
> {
    match group_named(lowered) {
        Some(g) => Ok(g),
        None => Err(ErrorModel::InvalidMuscleGroup(raw)),
    }
}

/// The lowercase form of a string, as `str::to_lowercase` computes it.
pub uninterp spec fn lower_of(s: Seq<char>) -> Seq<char>;

/// The result of parsing `raw`: its lowercase form must be a canonical name.
pub open spec fn parse_view(raw: Seq<char>) -> Result<TargetMuscle, ErrorModel> {
    parse_lowered_view(lower_of(raw), raw)
}

/// Every character of `s` is ASCII.
pub open spec fn is_ascii_text(s: Seq<char>) -> bool {
    forall|i: int| 0 <= i < s.len() ==> (s[i] as int) < 128
}

/// The code of `c` with ASCII upper case letters mapped to lower case.
pub open spec fn fold_ascii(c: char) -> int {
    if 65 <= (c as int) <= 90 {
        (c as int) + 32
    } else {
        c as int
    }
}

/// `s` equals `name` when ASCII letter case is ignored in `s`.
pub open spec fn equals_ignoring_ascii_case(s: Seq<char>, name: Seq<char>) -> bool {
    &&& s.len() == name.len()
    &&& forall|i: int| 0 <= i < s.len() ==> fold_ascii(s[i]) == name[i] as int
}

/// `r` is `s` with every ASCII upper case letter replaced by its lower case.
pub open spec fn ascii_lowered(s: Seq<char>, r: Seq<char>) -> bool {
    &&& r.len() == s.len()
    &&& forall|i: int| 0 <= i < s.len() ==> r[i] as int == fold_ascii(s[i])
}

/// The result of parsing ASCII text `raw`: it must equal a canonical name up
/// to letter case.
pub open spec fn parse_ascii_view(raw: Seq<char>) -> Result<TargetMuscle, ErrorModel> {
    if equals_ignoring_ascii_case(raw, canonical_name(TargetMuscle::Chest)) {
        Ok(TargetMuscle::Chest)
    } else if equals_ignoring_ascii_case(raw, canonical_name(TargetMuscle::Back)) {
        Ok(TargetMuscle::Back)
    } else if equals_ignoring_ascii_case(raw, canonical_name(TargetMuscle::Shoulders)) {
        Ok(TargetMuscle::Shoulders)
    } else if equals_ignoring_ascii_case(raw, canonical_name(TargetMuscle::Arms)) {
        Ok(TargetMuscle::Arms)
    } else if equals_ignoring_ascii_case(raw, canonical_name(TargetMuscle::Core)) {
        Ok(TargetMuscle::Core)
    } else if equals_ignoring_ascii_case(raw, canonical_name(TargetMuscle::Legs)) {
        Ok(TargetMuscle::Legs)
    } else {
        Err(ErrorModel::InvalidMuscleGroup(raw))
    }
}

/// A parse result with its error seen through its model.
pub open spec fn muscle_result_view(r: Result<TargetMuscle, ExerciseError>) -> Result<
    TargetMuscle,
    ErrorModel,
> {
    match r {
        Ok(g) => Ok(g),
        Err(e) => Err(e@),
    }
}

/// Relies on `str::to_lowercase`: the result depends on the characters alone,
/// and on ASCII text it lowers the letters A to Z and keeps every other character.
#[verifier::external_body]
fn lowercase(s: &str) -> (r: String)
    ensures
        r@ == lower_of(s@),
        is_ascii_text(s@) ==> ascii_lowered(s@, r@),
{
    s.to_lowercase()
}

/// Whether two strings hold the same characters.
fn same_text(a: &str, b: &str) -> (r: bool)
    ensures
        r == (a@ == b@),
{
    let n = a.unicode_len();
    if n != b.unicode_len() {
        return false;
    }
    let mut i: usize = 0;
    while i < n
        invariant
            n == a@.len(),
            n == b@.len(),
            0 <= i <= n,
            a@.subrange(0, i as int) == b@.subrange(0, i as int),
        decreases n - i,
    {
        if a.get_char(i) != b.get_char(i) {
            assert(a@[i as int] != b@[i as int]);
            return false;
        }
        assert(a@.subrange(0, i + 1) =~= a@.subrange(0, i as int).push(a@[i as int]));
        assert(b@.subrange(0, i + 1) =~= b@.subrange(0, i as int).push(b@[i as int]));
        i = i + 1;
    }
    assert(a@ =~= a@.subrange(0, n as int));
    assert(b@ =~= b@.subrange(0, n as int));
    true
}

impl TargetMuscle {
    /// The canonical lowercase name (`"chest"`, `"back"`, ...).
    pub fn as_str(&self) -> (r: &'static str)
        ensures
            r@ == canonical_name(*self),
    {
        match self {
            TargetMuscle::Chest => "chest",
            TargetMuscle::Back => "back",
            TargetMuscle::Shoulders => "shoulders",
            TargetMuscle::Arms => "arms",
            TargetMuscle::Core => "core",
            TargetMuscle::Legs => "legs",
        }
    }

    /// The canonical name as an owned string.
    pub fn to_text(&self) -> (r: String)
        ensures
            r@ == canonical_name(*self),
    {
        String::from_str(self.as_str())
    }

    /// Parses `raw` given its lowercase form `lowered`: succeeds exactly when
    /// `lowered` is a canonical name, and otherwise reports `raw`.
    pub fn from_lowercase(lowered: &str, raw: &str) -> (r: Result<TargetMuscle, ExerciseError>)
        ensures
            muscle_result_view(r) == parse_lowered_view(lowered@, raw@),
    {
        if same_text(lowered, TargetMuscle::Chest.as_str()) {
            Ok(TargetMuscle::Chest)
        } else if same_text(lowered, TargetMuscle::Back.as_str()) {
            Ok(TargetMuscle::Back)
        } else if same_text(lowered, TargetMuscle::Shoulders.as_str()) {
            Ok(TargetMuscle::Shoulders)
        } else if same_text(lowered, TargetMuscle::Arms.as_str()) {
            Ok(TargetMuscle::Arms)
        } else if same_text(lowered, TargetMuscle::Core.as_str()) {
            Ok(TargetMuscle::Core)
        } else if same_text(lowered, TargetMuscle::Legs.as_str()) {
            Ok(TargetMuscle::Legs)
        } else {
            Err(ExerciseError::InvalidMuscleGroup(String::from_str(raw)))
        }
    }

    /// Parses a muscle group from text, ignoring letter case. Fails with
    /// `InvalidMuscleGroup` holding `value` when it names none of the six.
    pub fn try_from(value: &str) -> (r: Result<TargetMuscle, ExerciseError>)
        ensures
            muscle_result_view(r) == parse_view(value@),
            is_ascii_text(value@) ==> muscle_result_view(r) == parse_ascii_view(value@),
    {
        let lowered = lowercase(value);
        let r = TargetMuscle::from_lowercase(lowered.as_str(), value);
        proof {
            if is_ascii_text(value@) {
                lemma_ascii_lowered_parse(value@, lowered@);
            }
        }
        r
    }
}

/// On ASCII text, matching the lowered form against a canonical name is the
/// same as matching the text itself up to letter case.
proof fn lemma_ascii_lowered_parse(s: Seq<char>, l: Seq<char>)
    requires
        ascii_lowered(s, l),
    ensures
        parse_lowered_view(l, s) == parse_ascii_view(s),
{
    assert forall|g: TargetMuscle| (l == canonical_name(g)) == equals_ignoring_ascii_case(
        s,
        canonical_name(g),
    ) by {
        let n = canonical_name(g);
        if equals_ignoring_ascii_case(s, n) {
            assert forall|i: int| 0 <= i < l.len() implies l[i] == n[i] by {
                assert(l[i] as int == n[i] as int);
            }
            assert(l =~= n);
        }
    }
}

} // verus!
