//! The buffer style configuration and its resolution into engine style
//! parameters, with the permissive-default policy: an unrecognized or missing
//! cap or join name silently resolves to the round style rather than failing.

use vstd::prelude::*;

verus! {

/// A decoded buffer style configuration. The numeric fields carry the decimal
/// text of the JSON numbers they were decoded from, so that the value reaches
/// the offsetting engine exactly as written; a `None` means the key was absent
/// or not of the expected type.
pub struct BufferConfig {
    pub distance: Option<String>,
    pub line_cap: Option<String>,
    pub line_join: Option<String>,
    pub miter_limit: Option<String>,
}

/// The mathematical content of a configuration.
pub ghost struct ConfigView {
    pub distance: Option<Seq<char>>,
    pub line_cap: Option<Seq<char>>,
    pub line_join: Option<Seq<char>>,
    pub miter_limit: Option<Seq<char>>,
}

/// The view of an optional string.
pub open spec fn opt_view(o: Option<String>) -> Option<Seq<char>> {
    match o {
        Some(s) => Some(s@),
        None => None,
    }
}

impl View for BufferConfig {
    type V = ConfigView;

    open spec fn view(&self) -> ConfigView {
        ConfigView {
            distance: opt_view(self.distance),
            line_cap: opt_view(self.line_cap),
            line_join: opt_view(self.line_join),
            miter_limit: opt_view(self.miter_limit),
        }
    }
}

/// A resolved line cap: how a buffered line's open ends are finished. The
/// round cap carries its corner-rounding tolerance as numeric text.
pub enum ResolvedCap {
    Round(String),
    Square,
    Butt,
}

/// A resolved line join: how a buffered line's corners are finished. The
/// round join carries its tolerance, the miter join its limit, as numeric
/// text.
pub enum ResolvedJoin {
    Round(String),
    Miter(String),
    Bevel,
}

/// The mathematical content of a resolved cap.
pub ghost enum CapView {
    Round(Seq<char>),
    Square,
    Butt,
}

/// The mathematical content of a resolved join.
pub ghost enum JoinView {
    Round(Seq<char>),
    Miter(Seq<char>),
    Bevel,
}

impl View for ResolvedCap {
    type V = CapView;

    open spec fn view(&self) -> CapView {
        match self {
            ResolvedCap::Round(t) => CapView::Round(t@),
            ResolvedCap::Square => CapView::Square,
            ResolvedCap::Butt => CapView::Butt,
        }
    }
}

impl View for ResolvedJoin {
    type V = JoinView;

    open spec fn view(&self) -> JoinView {
        match self {
            ResolvedJoin::Round(t) => JoinView::Round(t@),
            ResolvedJoin::Miter(m) => JoinView::Miter(m@),
            ResolvedJoin::Bevel => JoinView::Bevel,
        }
    }
}

/// How a cap name resolves: `square` and `butt` name themselves; everything
/// else, a missing name included, resolves to the round cap with the fixed
/// tolerance 0.2.
pub open spec fn spec_resolve_cap(cap: Option<Seq<char>>) -> CapView {
    match cap {
        Some(s) => if s == "square"@ {
            CapView::Square
        } else if s == "butt"@ {
            CapView::Butt
        } else {
            CapView::Round("0.2"@)
        },
        None => CapView::Round("0.2"@),
    }
}

/// How a join name resolves: `miter` takes the configured limit, or 1.0 when
/// absent; `bevel` names itself; everything else, a missing name included,
/// resolves to the round join with the fixed tolerance 0.2.
pub open spec fn spec_resolve_join(join: Option<Seq<char>>, miter: Option<Seq<char>>) -> JoinView {
    match join {
        Some(s) => if s == "miter"@ {
            JoinView::Miter(
                match miter {
                    Some(m) => m,
                    None => "1.0"@,
                },
            )
        } else if s == "bevel"@ {
            JoinView::Bevel
        } else {
            JoinView::Round("0.2"@)
        },
        None => JoinView::Round("0.2"@),
    }
}

/// Resolves the configured cap name.
pub fn resolve_cap(cap: &Option<String>) -> (r: ResolvedCap)
    ensures
        r@ == spec_resolve_cap(opt_view(*cap)),
{
    match cap {
        Some(s) => {
            if *s == String::from_str("square") {
                ResolvedCap::Square
            } else if *s == String::from_str("butt") {
                ResolvedCap::Butt
            } else {
                ResolvedCap::Round(String::from_str("0.2"))
            }
        },
        None => ResolvedCap::Round(String::from_str("0.2")),
    }
}

/// Resolves the configured join name, consulting the miter limit only for the
/// miter join.
pub fn resolve_join(join: &Option<String>, miter: &Option<String>) -> (r: ResolvedJoin)
    ensures
        r@ == spec_resolve_join(opt_view(*join), opt_view(*miter)),
{
    match join {
        Some(s) => {
            if *s == String::from_str("miter") {
                match miter {
                    Some(m) => ResolvedJoin::Miter(m.clone()),
                    None => ResolvedJoin::Miter(String::from_str("1.0")),
                }
            } else if *s == String::from_str("bevel") {
                ResolvedJoin::Bevel
            } else {
                ResolvedJoin::Round(String::from_str("0.2"))
            }
        },
        None => ResolvedJoin::Round(String::from_str("0.2")),
    }
}

/// The engine-facing encoding of a resolved cap: code 0 is the round cap,
/// whose tolerance text accompanies it; code 1 the square cap; code 2 the
/// butt cap.
pub fn cap_code(c: &ResolvedCap) -> (r: (u8, String))
    ensures
        c@ matches CapView::Round(t) ==> r.0 == 0 && r.1@ == t,
        c@ is Square ==> r.0 == 1,
        c@ is Butt ==> r.0 == 2,
{
    match c {
        ResolvedCap::Round(t) => (0, t.clone()),
        ResolvedCap::Square => (1, String::new()),
        ResolvedCap::Butt => (2, String::new()),
    }
}

/// The engine-facing encoding of a resolved join: code 0 is the round join
/// with its tolerance text, code 1 the miter join with its limit text, code 2
/// the bevel join.
pub fn join_code(j: &ResolvedJoin) -> (r: (u8, String))
    ensures
        j@ matches JoinView::Round(t) ==> r.0 == 0 && r.1@ == t,
        j@ matches JoinView::Miter(m) ==> r.0 == 1 && r.1@ == m,
        j@ is Bevel ==> r.0 == 2,
{
    match j {
        ResolvedJoin::Round(t) => (0, t.clone()),
        ResolvedJoin::Miter(m) => (1, m.clone()),
        ResolvedJoin::Bevel => (2, String::new()),
    }
}

/// An unrecognized or missing cap name resolves exactly as the explicit name
/// `round` does.
pub proof fn lemma_cap_default(cap: Option<Seq<char>>)
    requires
        cap is None || (cap matches Some(s) && s != "square"@ && s != "butt"@),
    ensures
        spec_resolve_cap(cap) == spec_resolve_cap(Some("round"@)),
{
    reveal_strlit("round");
    reveal_strlit("square");
    reveal_strlit("butt");
    assert("round"@.len() == 5 && "square"@.len() == 6 && "butt"@.len() == 4);
}

/// An unrecognized or missing join name resolves exactly as the explicit name
/// `round` does, whatever the configured miter limit.
pub proof fn lemma_join_default(join: Option<Seq<char>>, miter: Option<Seq<char>>)
    requires
        join is None || (join matches Some(s) && s != "miter"@ && s != "bevel"@),
    ensures
        spec_resolve_join(join, miter) == spec_resolve_join(Some("round"@), miter),
{
    reveal_strlit("round");
    reveal_strlit("miter");
    reveal_strlit("bevel");
    assert("round"@.len() == 5 && "miter"@.len() == 5 && "bevel"@.len() == 5);
    assert("round"@[0] == 'r' && "miter"@[0] == 'm' && "bevel"@[0] == 'b');
}

} // verus!
