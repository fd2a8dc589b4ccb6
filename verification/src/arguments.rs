//! Binding of Python constructor arguments to parameters.
//!
//! A constructor has an ordered list of named parameters, some required,
//! and a keyword-only `__pickle_state__` parameter. A call supplies some
//! positional arguments and some keyword arguments. Positional arguments
//! fill the first parameters in order; a keyword argument fills the
//! parameter of the same name. The call is refused with a `TypeError` when
//! it has more positional arguments than parameters, and otherwise at the
//! first keyword, in keyword order, that names no parameter, or names a
//! parameter that already has a value (from a positional argument or an
//! earlier keyword). A call that passes these checks and carries pickled
//! state restores the value from it; one without state is refused with a
//! `ValueError` when a required parameter has no value (the first such).

use vstd::prelude::*;
use vstd::string::StringExecFns;

verus! {

/// One named constructor parameter.
#[derive(Debug)]
pub struct Param {
    pub name: String,
    pub required: bool,
}

/// Where the value bound to a parameter comes from.
#[derive(Debug, Clone, Copy, PartialEq, Eq, Structural)]
pub enum ArgSource {
    /// The positional argument with this index.
    Positional(usize),
    /// The keyword argument with this index.
    Keyword(usize),
}

/// Why a call's arguments cannot be bound.
#[derive(Debug, Clone, Copy, PartialEq, Eq, Structural)]
pub enum BindError {
    /// More positional arguments than parameters (`TypeError`).
    TooManyPositional { given: usize, max: usize },
    /// The parameter with this index received a second value (`TypeError`);
    /// the index one past the last parameter stands for `__pickle_state__`.
    MultipleValues { param: usize },
    /// The keyword argument with this index names no parameter (`TypeError`).
    UnexpectedKeyword { keyword: usize },
    /// The required parameter with this index received no value (`ValueError`).
    MissingRequired { param: usize },
}

impl BindError {
    /// Whether Python reports this refusal as a `TypeError` (otherwise it
    /// is a `ValueError`).
    pub fn is_type_error(&self) -> (r: bool)
        ensures
            r == !(self is MissingRequired),
    {
        match self {
            BindError::MissingRequired { .. } => false,
            _ => true,
        }
    }
}

/// What a constructor call does.
#[derive(Debug)]
pub enum Construction {
    /// Restore the value from the pickled state carried by this keyword
    /// argument.
    Restore { keyword: usize },
    /// Build the value from the arguments bound to each parameter.
    Fields { slots: Vec<Option<ArgSource>> },
}

/// Keyword `j` names parameter `i`.
pub open spec fn names_param(params: Seq<Param>, keywords: Seq<String>, i: int, j: int) -> bool {
    keywords[j]@ == params[i].name@
}

/// Some keyword names parameter `i`.
pub open spec fn has_keyword(params: Seq<Param>, keywords: Seq<String>, i: int) -> bool {
    exists|j: int| 0 <= j < keywords.len() && names_param(params, keywords, i, j)
}

/// Keyword `j` names no parameter.
pub open spec fn unmatched(params: Seq<Param>, keywords: Seq<String>, j: int) -> bool {
    forall|i: int| 0 <= i < params.len() ==> !names_param(params, keywords, i, j)
}

/// Keyword `j` is the pickled-state keyword.
pub open spec fn is_state_keyword(keywords: Seq<String>, j: int) -> bool {
    keywords[j]@ == "__pickle_state__"@
}

/// An earlier keyword has the same name as keyword `j`.
pub open spec fn repeated(keywords: Seq<String>, j: int) -> bool {
    exists|j2: int| 0 <= j2 < j && keywords[j2]@ == keywords[j]@
}

/// Parameter `i` is the first that keyword `j` names.
pub open spec fn first_named(params: Seq<Param>, keywords: Seq<String>, j: int, i: int) -> bool {
    &&& 0 <= i < params.len()
    &&& names_param(params, keywords, i, j)
    &&& forall|i2: int| 0 <= i2 < i ==> !names_param(params, keywords, i2, j)
}

/// Keyword `j` is refused as naming nothing: it names no parameter and is
/// not an accepted state keyword.
pub open spec fn unknown(params: Seq<Param>, keywords: Seq<String>, j: int, with_state: bool) -> bool {
    unmatched(params, keywords, j) && !(with_state && is_state_keyword(keywords, j))
}

/// Keyword `j` is refused: it names nothing, or what it names already has a
/// value from an earlier keyword or from a positional argument.
pub open spec fn bad_keyword(
    params: Seq<Param>,
    n: nat,
    keywords: Seq<String>,
    j: int,
    with_state: bool,
) -> bool {
    ||| unknown(params, keywords, j, with_state)
    ||| repeated(keywords, j)
    ||| exists|i: int| first_named(params, keywords, j, i) && i < n
}

/// Keyword `j` is the first one refused.
pub open spec fn first_bad(
    params: Seq<Param>,
    n: nat,
    keywords: Seq<String>,
    j: int,
    with_state: bool,
) -> bool {
    &&& 0 <= j < keywords.len()
    &&& bad_keyword(params, n, keywords, j, with_state)
    &&& forall|j2: int| 0 <= j2 < j ==> !bad_keyword(params, n, keywords, j2, with_state)
}

/// The refusal for keyword `j`.
pub open spec fn keyword_error(params: Seq<Param>, keywords: Seq<String>, j: int, with_state: bool) -> BindError {
    if unknown(params, keywords, j, with_state) {
        BindError::UnexpectedKeyword { keyword: j as usize }
    } else if exists|i: int| first_named(params, keywords, j, i) {
        BindError::MultipleValues {
            param: (choose|i: int| first_named(params, keywords, j, i)) as usize,
        }
    } else {
        BindError::MultipleValues { param: params.len() as usize }
    }
}

/// The `TypeError` with which a call is refused, if any: too many
/// positional arguments, else the first refused keyword. `with_state` says
/// whether the `__pickle_state__` keyword is accepted.
pub open spec fn call_refusal(
    params: Seq<Param>,
    n: nat,
    keywords: Seq<String>,
    with_state: bool,
) -> Option<BindError> {
    if n > params.len() {
        Some(BindError::TooManyPositional { given: n as usize, max: params.len() as usize })
    } else if exists|j: int| first_bad(params, n, keywords, j, with_state) {
        Some(
            keyword_error(
                params,
                keywords,
                choose|j: int| first_bad(params, n, keywords, j, with_state),
                with_state,
            ),
        )
    } else {
        None
    }
}

/// Keyword `j` is the first that names parameter `i`.
pub open spec fn first_keyword_for(params: Seq<Param>, keywords: Seq<String>, i: int, j: int) -> bool {
    &&& 0 <= j < keywords.len()
    &&& names_param(params, keywords, i, j)
    &&& forall|j2: int| 0 <= j2 < j ==> !names_param(params, keywords, i, j2)
}

/// Parameter `i` is required and receives no value.
pub open spec fn missing(params: Seq<Param>, n: nat, keywords: Seq<String>, i: int) -> bool {
    params[i].required && i >= n && !has_keyword(params, keywords, i)
}

/// Parameter `i` is the first required parameter that receives no value.
pub open spec fn first_missing(params: Seq<Param>, n: nat, keywords: Seq<String>, i: int) -> bool {
    &&& 0 <= i < params.len()
    &&& missing(params, n, keywords, i)
    &&& forall|i2: int| 0 <= i2 < i ==> !missing(params, n, keywords, i2)
}

/// The value bound to parameter `i`.
pub open spec fn source_of(params: Seq<Param>, n: nat, keywords: Seq<String>, i: int) -> Option<
    ArgSource,
> {
    if i < n {
        Some(ArgSource::Positional(i as usize))
    } else if has_keyword(params, keywords, i) {
        Some(ArgSource::Keyword((choose|j: int| first_keyword_for(params, keywords, i, j)) as usize))
    } else {
        None
    }
}

/// The outcome of a call that passed the `TypeError` checks and carries no
/// pickled state: refused for the first missing required parameter, or the
/// value bound to each parameter.
pub open spec fn settle(params: Seq<Param>, n: nat, keywords: Seq<String>) -> Result<
    Seq<Option<ArgSource>>,
    BindError,
> {
    if exists|i: int| first_missing(params, n, keywords, i) {
        Err(
            BindError::MissingRequired {
                param: (choose|i: int| first_missing(params, n, keywords, i)) as usize,
            },
        )
    } else {
        Ok(Seq::new(params.len(), |i: int| source_of(params, n, keywords, i)))
    }
}

/// The outcome of binding `n` positional arguments and the given keyword
/// arguments to the parameters, with no state keyword accepted.
pub open spec fn bind_outcome(params: Seq<Param>, n: nat, keywords: Seq<String>) -> Result<
    Seq<Option<ArgSource>>,
    BindError,
> {
    match call_refusal(params, n, keywords, false) {
        Some(e) => Err(e),
        None => settle(params, n, keywords),
    }
}

/// The first parameter that keyword `j` names, if any.
fn first_param_named(params: &[Param], keywords: &[String], j: usize) -> (r: Option<usize>)
    requires
        j < keywords@.len(),
    ensures
        match r {
            Some(i) => first_named(params@, keywords@, j as int, i as int),
            None => unmatched(params@, keywords@, j as int),
        },
{
    let mut i: usize = 0;
    while i < params.len()
        invariant
            j < keywords@.len(),
            i <= params@.len(),
            forall|i2: int| 0 <= i2 < i ==> !names_param(params@, keywords@, i2, j as int),
        decreases params@.len() - i,
    {
        if keywords[j] == params[i].name {
            return Some(i);
        }
        i += 1;
    }
    None
}

/// Whether an earlier keyword has the same name as keyword `j`.
fn is_repeated(keywords: &[String], j: usize) -> (r: bool)
    requires
        j < keywords@.len(),
    ensures
        r == repeated(keywords@, j as int),
{
    let mut j2: usize = 0;
    while j2 < j
        invariant
            j < keywords@.len(),
            j2 <= j,
            forall|j3: int| 0 <= j3 < j2 ==> keywords@[j3]@ != keywords@[j as int]@,
        decreases j - j2,
    {
        if keywords[j2] == keywords[j] {
            return true;
        }
        j2 += 1;
    }
    false
}

/// The `TypeError` with which a call is refused, if any.
fn check_call(params: &[Param], n: usize, keywords: &[String], with_state: bool) -> (r: Option<
    BindError,
>)
    ensures
        r == call_refusal(params@, n as nat, keywords@, with_state),
{
    let ghost ps = params@;
    let ghost ks = keywords@;
    let ghost nn = n as nat;
    if n > params.len() {
        return Some(BindError::TooManyPositional { given: n, max: params.len() });
    }
    let state = String::from_str("__pickle_state__");
    let mut j: usize = 0;
    while j < keywords.len()
        invariant
            j <= ks.len(),
            n <= ps.len(),
            ps == params@,
            ks == keywords@,
            nn == n as nat,
            state@ == "__pickle_state__"@,
            forall|j2: int| 0 <= j2 < j ==> !bad_keyword(ps, nn, ks, j2, with_state),
        decreases ks.len() - j,
    {
        let named = first_param_named(params, keywords, j);
        let is_state = with_state && keywords[j] == state;
        let rep = is_repeated(keywords, j);
        let positional_conflict = match named {
            Some(i) => i < n,
            None => false,
        };
        proof {
            if let Some(i) = named {
                assert forall|i2: int| first_named(ps, ks, j as int, i2) implies i2 == i by {
                    if i2 < i {
                        assert(!names_param(ps, ks, i2, j as int));
                    } else if i < i2 {
                        assert(!names_param(ps, ks, i as int, j as int));
                    }
                }
            } else {
                assert forall|i2: int| !first_named(ps, ks, j as int, i2) by {}
            }
        }
        if (named.is_none() && !is_state) || rep || positional_conflict {
            assert(bad_keyword(ps, nn, ks, j as int, with_state));
            assert(first_bad(ps, nn, ks, j as int, with_state));
            let ghost c = choose|c: int| first_bad(ps, nn, ks, c, with_state);
            assert(c == j as int) by {
                if c < j {
                    assert(!bad_keyword(ps, nn, ks, c, with_state));
                } else if c > j {
                    assert(!bad_keyword(ps, nn, ks, j as int, with_state));
                }
            }
            if named.is_none() && !is_state {
                return Some(BindError::UnexpectedKeyword { keyword: j });
            }
            return match named {
                Some(i) => Some(BindError::MultipleValues { param: i }),
                None => Some(BindError::MultipleValues { param: params.len() }),
            };
        }
        j += 1;
    }
    assert(!exists|c: int| first_bad(ps, nn, ks, c, with_state));
    None
}

/// The first keyword that names parameter `i`, if any.
fn keyword_for(params: &[Param], keywords: &[String], i: usize) -> (r: Option<usize>)
    requires
        i < params@.len(),
    ensures
        r is None <==> !has_keyword(params@, keywords@, i as int),
        r matches Some(j) ==> first_keyword_for(params@, keywords@, i as int, j as int),
{
    let mut j: usize = 0;
    while j < keywords.len()
        invariant
            i < params@.len(),
            j <= keywords@.len(),
            forall|j2: int| 0 <= j2 < j ==> !names_param(params@, keywords@, i as int, j2),
        decreases keywords@.len() - j,
    {
        if keywords[j] == params[i].name {
            assert(names_param(params@, keywords@, i as int, j as int));
            return Some(j);
        }
        j += 1;
    }
    None
}

/// Refuses a call for its first missing required parameter, or binds each
/// parameter to its value.
fn settle_call(params: &[Param], n: usize, keywords: &[String]) -> (r: Result<
    Vec<Option<ArgSource>>,
    BindError,
>)
    requires
        n <= params@.len(),
    ensures
        match r {
            Ok(slots) => settle(params@, n as nat, keywords@) == Ok::<
                Seq<Option<ArgSource>>,
                BindError,
            >(slots@),
            Err(e) => settle(params@, n as nat, keywords@) == Err::<
                Seq<Option<ArgSource>>,
                BindError,
            >(e),
        },
{
    let ghost ps = params@;
    let ghost ks = keywords@;
    let ghost nn = n as nat;
    let mut slots: Vec<Option<ArgSource>> = Vec::new();
    let mut i: usize = 0;
    while i < params.len()
        invariant
            n <= ps.len(),
            i <= ps.len(),
            ps == params@,
            ks == keywords@,
            nn == n as nat,
            slots@.len() == i,
            forall|i2: int| 0 <= i2 < i ==> #[trigger] slots@[i2] == source_of(ps, nn, ks, i2),
        decreases ps.len() - i,
    {
        let slot = if i < n {
            Some(ArgSource::Positional(i))
        } else {
            match keyword_for(params, keywords, i) {
                Some(j) => {
                    let ghost c = choose|c: int| first_keyword_for(ps, ks, i as int, c);
                    assert(c == j as int) by {
                        if c < j {
                            assert(!names_param(ps, ks, i as int, c));
                        } else if c > j {
                            assert(!names_param(ps, ks, i as int, j as int));
                        }
                    }
                    Some(ArgSource::Keyword(j))
                },
                None => None,
            }
        };
        slots.push(slot);
        i += 1;
    }
    let mut m: usize = 0;
    while m < params.len()
        invariant
            m <= ps.len(),
            n <= ps.len(),
            ps == params@,
            ks == keywords@,
            nn == n as nat,
            slots@.len() == ps.len(),
            forall|i2: int| 0 <= i2 < ps.len() ==> #[trigger] slots@[i2] == source_of(ps, nn, ks, i2),
            forall|i2: int| 0 <= i2 < m ==> !missing(ps, nn, ks, i2),
        decreases ps.len() - m,
    {
        if params[m].required && slots[m].is_none() {
            assert(missing(ps, nn, ks, m as int));
            assert(first_missing(ps, nn, ks, m as int));
            let ghost c = choose|c: int| first_missing(ps, nn, ks, c);
            assert(c == m as int) by {
                if c < m {
                    assert(!missing(ps, nn, ks, c));
                } else if c > m {
                    assert(!missing(ps, nn, ks, m as int));
                }
            }
            return Err(BindError::MissingRequired { param: m });
        }
        m += 1;
    }
    assert(!exists|c: int| first_missing(ps, nn, ks, c));
    assert(slots@ =~= Seq::new(ps.len(), |i2: int| source_of(ps, nn, ks, i2)));
    Ok(slots)
}

/// Binds a call's arguments to the constructor's parameters.
pub fn bind_arguments(params: &[Param], n_positional: usize, keywords: &[String]) -> (r: Result<
    Vec<Option<ArgSource>>,
    BindError,
>)
    ensures
        match r {
            Ok(slots) => bind_outcome(params@, n_positional as nat, keywords@) == Ok::<
                Seq<Option<ArgSource>>,
                BindError,
            >(slots@),
            Err(e) => bind_outcome(params@, n_positional as nat, keywords@) == Err::<
                Seq<Option<ArgSource>>,
                BindError,
            >(e),
        },
{
    match check_call(params, n_positional, keywords, false) {
        Some(e) => Err(e),
        None => settle_call(params, n_positional, keywords),
    }
}

/// Keyword `j` is the first that carries pickled state.
pub open spec fn first_state_keyword(keywords: Seq<String>, j: int) -> bool {
    &&& 0 <= j < keywords.len()
    &&& is_state_keyword(keywords, j)
    &&& forall|j2: int| 0 <= j2 < j ==> !is_state_keyword(keywords, j2)
}

/// Decides what a constructor call does: refuse it with a `TypeError`
/// (the `__pickle_state__` keyword being accepted), else restore the value
/// when a `__pickle_state__` keyword is present, else bind the arguments.
pub fn plan_construction(params: &[Param], n_positional: usize, keywords: &[String]) -> (r: Result<
    Construction,
    BindError,
>)
    ensures
        call_refusal(params@, n_positional as nat, keywords@, true) matches Some(e) ==> r == Err::<
            Construction,
            BindError,
        >(e),
        call_refusal(params@, n_positional as nat, keywords@, true) is None && (exists|j: int|
            first_state_keyword(keywords@, j)) ==> r == Ok::<Construction, BindError>(
            Construction::Restore {
                keyword: (choose|j: int| first_state_keyword(keywords@, j)) as usize,
            },
        ),
        call_refusal(params@, n_positional as nat, keywords@, true) is None && !(exists|j: int|
            first_state_keyword(keywords@, j)) ==> match r {
            Ok(Construction::Fields { slots }) => settle(
                params@,
                n_positional as nat,
                keywords@,
            ) == Ok::<Seq<Option<ArgSource>>, BindError>(slots@),
            Ok(Construction::Restore { .. }) => false,
            Err(e) => settle(params@, n_positional as nat, keywords@) == Err::<
                Seq<Option<ArgSource>>,
                BindError,
            >(e),
        },
{
    if let Some(e) = check_call(params, n_positional, keywords, true) {
        return Err(e);
    }
    let state = String::from_str("__pickle_state__");
    let mut j: usize = 0;
    while j < keywords.len()
        invariant
            j <= keywords@.len(),
            state@ == "__pickle_state__"@,
            call_refusal(params@, n_positional as nat, keywords@, true) is None,
            forall|j2: int| 0 <= j2 < j ==> !is_state_keyword(keywords@, j2),
        decreases keywords@.len() - j,
    {
        if keywords[j] == state {
            assert(first_state_keyword(keywords@, j as int));
            let ghost c = choose|c: int| first_state_keyword(keywords@, c);
            assert(c == j as int) by {
                if c < j {
                    assert(!is_state_keyword(keywords@, c));
                } else if c > j {
                    assert(is_state_keyword(keywords@, j as int));
                }
            }
            return Ok(Construction::Restore { keyword: j });
        }
        j += 1;
    }
    assert(!(exists|c: int| first_state_keyword(keywords@, c)));
    match settle_call(params, n_positional, keywords) {
        Ok(slots) => Ok(Construction::Fields { slots }),
        Err(e) => Err(e),
    }
}

/// No two parameters share a name.
pub open spec fn distinct_names(params: Seq<Param>) -> bool {
    forall|a: int, b: int| 0 <= a < b < params.len() ==> params[a].name@ != params[b].name@
}

/// `keywords` are the names of the first `k` parameters, in order.
pub open spec fn leading_names(params: Seq<Param>, keywords: Seq<String>, k: nat) -> bool {
    &&& k <= params.len()
    &&& keywords.len() == k
    &&& forall|j: int| 0 <= j < k ==> (#[trigger] keywords[j])@ == params[j].name@
}

/// Some parameter is bound from keyword argument `j`.
pub open spec fn keyword_is_bound(slots: Seq<Option<ArgSource>>, j: int) -> bool {
    exists|i: int| 0 <= i < slots.len() && slots[i] == Some(ArgSource::Keyword(j as usize))
}

/// A refused keyword implies that there is a first one.
proof fn lemma_first_bad_exists(params: Seq<Param>, n: nat, keywords: Seq<String>, j: int, with_state: bool)
    requires
        0 <= j < keywords.len(),
        bad_keyword(params, n, keywords, j, with_state),
    ensures
        exists|c: int| first_bad(params, n, keywords, c, with_state),
    decreases j,
{
    if forall|j2: int| 0 <= j2 < j ==> !bad_keyword(params, n, keywords, j2, with_state) {
        assert(first_bad(params, n, keywords, j, with_state));
    } else {
        let j2 = choose|j2: int| 0 <= j2 < j && bad_keyword(params, n, keywords, j2, with_state);
        lemma_first_bad_exists(params, n, keywords, j2, with_state);
    }
}

/// A name that some parameter carries is carried by a first one.
proof fn lemma_first_named_exists(params: Seq<Param>, keywords: Seq<String>, j: int, i: int)
    requires
        0 <= i < params.len(),
        names_param(params, keywords, i, j),
    ensures
        exists|c: int| first_named(params, keywords, j, c),
    decreases i,
{
    if forall|i2: int| 0 <= i2 < i ==> !names_param(params, keywords, i2, j) {
        assert(first_named(params, keywords, j, i));
    } else {
        let i2 = choose|i2: int| 0 <= i2 < i && names_param(params, keywords, i2, j);
        lemma_first_named_exists(params, keywords, j, i2);
    }
}

/// Passing the first `k` arguments by keyword binds exactly as passing them
/// by position: the call is refused for the same reason or accepted, and
/// then the same parameters receive a value, the first `k` from the
/// keyword (respectively positional) argument of the same index.
pub proof fn lemma_keywords_bind_like_positionals(
    params: Seq<Param>,
    keywords: Seq<String>,
    k: nat,
)
    requires
        distinct_names(params),
        leading_names(params, keywords, k),
    ensures
        bind_outcome(params, 0, keywords) is Ok <==> bind_outcome(params, k, Seq::empty()) is Ok,
        bind_outcome(params, 0, keywords) matches Err(e1) ==> bind_outcome(
            params,
            k,
            Seq::empty(),
        ) == Err::<Seq<Option<ArgSource>>, BindError>(e1),
        bind_outcome(params, 0, keywords) matches Ok(by_keyword) ==> bind_outcome(
            params,
            k,
            Seq::empty(),
        ) matches Ok(by_position) && by_keyword.len() == params.len() && by_position.len()
            == params.len() && (forall|i: int|
            0 <= i < k ==> by_keyword[i] == Some(ArgSource::Keyword(i as usize))
                && by_position[i] == Some(ArgSource::Positional(i as usize))) && (forall|i: int|
            k <= i < params.len() ==> by_keyword[i] is None && by_position[i] is None),
{
    let e = Seq::<String>::empty();
    // By keyword: keyword j names exactly parameter j.
    assert forall|i: int, j: int|
        0 <= i < params.len() && 0 <= j < keywords.len() implies (names_param(
        params,
        keywords,
        i,
        j,
    ) <==> i == j) by {
        assert(keywords[j]@ == params[j].name@);
        if i != j && names_param(params, keywords, i, j) {
            if i < j {
                assert(params[i].name@ != params[j].name@);
            } else {
                assert(params[j].name@ != params[i].name@);
            }
        }
    }
    assert forall|i: int| 0 <= i < params.len() implies (has_keyword(params, keywords, i) <==> i
        < k) by {
        if i < k {
            assert(names_param(params, keywords, i, i));
        }
    }
    assert forall|j: int| 0 <= j < keywords.len() implies !bad_keyword(params, 0, keywords, j, false) by {
        assert(names_param(params, keywords, j, j));
        if repeated(keywords, j) {
            let j2 = choose|j2: int| 0 <= j2 < j && keywords[j2]@ == keywords[j]@;
            assert(keywords[j2]@ == params[j2].name@);
            assert(params[j2].name@ != params[j].name@);
        }
    }
    assert(!exists|c: int| first_bad(params, 0, keywords, c, false));
    assert(!exists|c: int| first_bad(params, k, e, c, false));
    assert(call_refusal(params, 0, keywords, false) is None);
    assert(call_refusal(params, k, e, false) is None);
    // Both refuse a call for the same missing parameters.
    assert forall|i: int| 0 <= i < params.len() implies !has_keyword(params, e, i) by {}
    assert forall|i: int| 0 <= i < params.len() implies (missing(params, 0, keywords, i)
        <==> missing(params, k, e, i)) by {}
    assert forall|i: int| #![trigger first_missing(params, 0, keywords, i)]
        first_missing(params, 0, keywords, i) <==> first_missing(params, k, e, i) by {}
    if exists|c: int| first_missing(params, 0, keywords, c) {
        let c1 = choose|c: int| first_missing(params, 0, keywords, c);
        assert(first_missing(params, k, e, c1));
        let c2 = choose|c: int| first_missing(params, k, e, c);
        assert(first_missing(params, 0, keywords, c2));
        assert(c1 == c2) by {
            if c1 < c2 {
                assert(!missing(params, k, e, c1));
            } else if c2 < c1 {
                assert(!missing(params, 0, keywords, c2));
            }
        }
        assert(bind_outcome(params, 0, keywords) == Err::<Seq<Option<ArgSource>>, BindError>(
            BindError::MissingRequired { param: c1 as usize },
        ));
        assert(bind_outcome(params, k, e) == Err::<Seq<Option<ArgSource>>, BindError>(
            BindError::MissingRequired { param: c1 as usize },
        ));
    } else {
        assert(!exists|c: int| first_missing(params, k, e, c)) by {
            if exists|c: int| first_missing(params, k, e, c) {
                let c = choose|c: int| first_missing(params, k, e, c);
                assert(first_missing(params, 0, keywords, c));
            }
        }
        let by_keyword = Seq::new(params.len(), |i: int| source_of(params, 0, keywords, i));
        let by_position = Seq::new(params.len(), |i: int| source_of(params, k, e, i));
        assert(bind_outcome(params, 0, keywords) == Ok::<Seq<Option<ArgSource>>, BindError>(
            by_keyword,
        ));
        assert(bind_outcome(params, k, e) == Ok::<Seq<Option<ArgSource>>, BindError>(
            by_position,
        ));
        assert forall|i: int| 0 <= i < k implies by_keyword[i] == Some(
            ArgSource::Keyword(i as usize),
        ) && by_position[i] == Some(ArgSource::Positional(i as usize)) by {
            assert(has_keyword(params, keywords, i));
            assert(first_keyword_for(params, keywords, i, i));
            let c = choose|c: int| first_keyword_for(params, keywords, i, c);
            assert(c == i);
        }
        assert forall|i: int| k <= i < params.len() implies by_keyword[i] is None
            && by_position[i] is None by {
            assert(!has_keyword(params, keywords, i));
            assert(!has_keyword(params, e, i));
        }
    }
}

/// When a call binds, each keyword argument goes to the parameter of its
/// own name, whatever the order of the keywords: a parameter bound from a
/// keyword is bound from one that carries its name, a parameter without a
/// positional argument is bound from a keyword exactly when some keyword
/// names it, and every keyword is bound to some parameter.
pub proof fn lemma_keywords_bind_by_name(params: Seq<Param>, n: nat, keywords: Seq<String>)
    requires
        params.len() <= usize::MAX,
        keywords.len() <= usize::MAX,
        bind_outcome(params, n, keywords) is Ok,
    ensures
        bind_outcome(params, n, keywords) matches Ok(slots) && slots.len() == params.len() && (
        forall|i: int|
            0 <= i < params.len() ==> match #[trigger] slots[i] {
                Some(ArgSource::Keyword(j)) => j < keywords.len() && keywords[j as int]@
                    == params[i].name@,
                Some(ArgSource::Positional(p)) => p == i && i < n,
                None => i >= n && !has_keyword(params, keywords, i),
            }) && (forall|j: int|
            0 <= j < keywords.len() ==> #[trigger] keyword_is_bound(slots, j)),
{
    assert(call_refusal(params, n, keywords, false) is None);
    assert forall|j: int| 0 <= j < keywords.len() implies !bad_keyword(params, n, keywords, j, false) by {
        if bad_keyword(params, n, keywords, j, false) {
            lemma_first_bad_exists(params, n, keywords, j, false);
        }
    }
    assert(!exists|c: int| first_missing(params, n, keywords, c));
    let slots = Seq::new(params.len(), |i: int| source_of(params, n, keywords, i));
    assert(bind_outcome(params, n, keywords) == Ok::<Seq<Option<ArgSource>>, BindError>(slots));
    assert forall|i: int| 0 <= i < params.len() implies match #[trigger] slots[i] {
        Some(ArgSource::Keyword(j)) => j < keywords.len() && keywords[j as int]@
            == params[i].name@,
        Some(ArgSource::Positional(p)) => p == i && i < n,
        None => i >= n && !has_keyword(params, keywords, i),
    } by {
        if i >= n && has_keyword(params, keywords, i) {
            let w = choose|w: int| 0 <= w < keywords.len() && names_param(params, keywords, i, w);
            lemma_first_keyword_exists(params, keywords, i, w);
            let c = choose|c: int| first_keyword_for(params, keywords, i, c);
            assert(c < keywords.len());
        }
    }
    assert forall|j: int| 0 <= j < keywords.len() implies #[trigger] keyword_is_bound(slots, j) by {
        assert(!bad_keyword(params, n, keywords, j, false));
        assert(!unmatched(params, keywords, j));
        let w = choose|w: int| 0 <= w < params.len() && names_param(params, keywords, w, j);
        lemma_first_named_exists(params, keywords, j, w);
        let i = choose|i: int| first_named(params, keywords, j, i);
        assert(i >= n);
        assert(has_keyword(params, keywords, i));
        assert(first_keyword_for(params, keywords, i, j)) by {
            assert forall|j2: int| 0 <= j2 < j implies !names_param(params, keywords, i, j2) by {
                if names_param(params, keywords, i, j2) {
                    assert(keywords[j2]@ == keywords[j]@);
                    assert(repeated(keywords, j));
                }
            }
        }
        let c = choose|c: int| first_keyword_for(params, keywords, i, c);
        assert(c == j) by {
            if c < j {
                assert(!names_param(params, keywords, i, c));
            } else if j < c {
                assert(!names_param(params, keywords, i, j));
            }
        }
        assert(slots[i] == Some(ArgSource::Keyword(j as usize)));
    }
}

/// A keyword that names a parameter implies a first such keyword.
proof fn lemma_first_keyword_exists(params: Seq<Param>, keywords: Seq<String>, i: int, j: int)
    requires
        0 <= j < keywords.len(),
        names_param(params, keywords, i, j),
    ensures
        exists|c: int| first_keyword_for(params, keywords, i, c),
    decreases j,
{
    if forall|j2: int| 0 <= j2 < j ==> !names_param(params, keywords, i, j2) {
        assert(first_keyword_for(params, keywords, i, j));
    } else {
        let j2 = choose|j2: int| 0 <= j2 < j && names_param(params, keywords, i, j2);
        lemma_first_keyword_exists(params, keywords, i, j2);
    }
}

} // verus!
