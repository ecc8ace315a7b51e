//! The typed filter compiler and its matching semantics.
//!
//! A filter struct carries, per optional field, a set of comparison
//! operations. Compilation turns present fields into `FilterNode`s; the
//! engine then keeps exactly the records where every node matches
//! (fields are AND'd) and a node matches when any of its operations does
//! (operations on one field are OR'd). Unsupported operation tokens are
//! rejected with `FilterInvalid` at compile time, never silently ignored.

use vstd::prelude::*;

verus! {

use crate::error::{Error, ErrorV};
use crate::strutil::{is_substring, str_contains, str_eq};
use crate::vals::{FieldMap, Val, ValV};

/// One comparison operation on a string-valued field.
pub enum OpValString {
    /// The stored string equals the operand.
    Eq(String),
    /// The stored string contains the operand as a substring.
    Contains(String),
    /// The stored string is one of the operands.
    In(Vec<String>),
}

/// The mathematical value of an `OpValString`.
#[verifier::ext_equal]
pub enum OpValStringV {
    Eq(Seq<char>),
    Contains(Seq<char>),
    In(Seq<Seq<char>>),
}

impl View for OpValString {
    type V = OpValStringV;

    open spec fn view(&self) -> OpValStringV {
        match self {
            OpValString::Eq(s) => OpValStringV::Eq(s@),
            OpValString::Contains(s) => OpValStringV::Contains(s@),
            OpValString::In(ss) => OpValStringV::In(ss.deep_view()),
        }
    }
}

impl DeepView for OpValString {
    type V = OpValStringV;

    open spec fn deep_view(&self) -> OpValStringV {
        self.view()
    }
}

/// The operation set a filter field carries.
pub struct OpValsString(pub Vec<OpValString>);

impl View for OpValsString {
    type V = Seq<OpValStringV>;

    open spec fn view(&self) -> Seq<OpValStringV> {
        self.0.deep_view()
    }
}

/// One compiled filter clause: a field name and its operation set.
pub struct FilterNode {
    pub name: String,
    pub opvals: Vec<OpValString>,
}

/// The mathematical value of a `FilterNode`.
#[verifier::ext_equal]
pub struct FilterNodeV {
    pub name: Seq<char>,
    pub opvals: Seq<OpValStringV>,
}

impl View for FilterNode {
    type V = FilterNodeV;

    open spec fn view(&self) -> FilterNodeV {
        FilterNodeV { name: self.name@, opvals: self.opvals.deep_view() }
    }
}

/// The mathematical value of a compiled node list.
pub open spec fn nodes_view(s: Seq<FilterNode>) -> Seq<FilterNodeV> {
    s.map_values(|n: FilterNode| n@)
}

/// One operation matches one stored value. A value that is not a string
/// matches no string operation.
pub open spec fn op_matches(op: OpValStringV, v: ValV) -> bool {
    match op {
        OpValStringV::Eq(s) => v == ValV::Str(s),
        OpValStringV::Contains(s) => v matches ValV::Str(t) && is_substring(t, s),
        OpValStringV::In(ss) => v matches ValV::Str(t) && ss.contains(t),
    }
}

/// A node matches a record when the field is present and some operation of
/// the node matches its value.
pub open spec fn node_matches(obj: Map<Seq<char>, ValV>, n: FilterNodeV) -> bool {
    obj.contains_key(n.name) && exists|i: int|
        0 <= i < n.opvals.len() && op_matches(#[trigger] n.opvals[i], obj[n.name])
}

/// A record passes a compiled filter when every node matches.
pub open spec fn nodes_match(obj: Map<Seq<char>, ValV>, nodes: Seq<FilterNodeV>) -> bool {
    forall|i: int| 0 <= i < nodes.len() ==> node_matches(obj, #[trigger] nodes[i])
}

/// Decides whether one operation matches one stored value.
pub fn op_matches_exec(op: &OpValString, v: &Val) -> (r: bool)
    ensures
        r == op_matches(op@, v@),
{
    match op {
        OpValString::Eq(s) => match v {
            Val::Str(t) => str_eq(t.as_str(), s.as_str()),
            _ => false,
        },
        OpValString::Contains(s) => match v {
            Val::Str(t) => str_contains(t.as_str(), s.as_str()),
            _ => false,
        },
        OpValString::In(ss) => match v {
            Val::Str(t) => {
                let mut i: usize = 0;
                while i < ss.len()
                    invariant
                        i <= ss.len(),
                        op@ == OpValStringV::In(ss.deep_view()),
                        v@ == ValV::Str(t@),
                        forall|k: int| 0 <= k < i ==> ss.deep_view()[k] != t@,
                    decreases ss.len() - i,
                {
                    if str_eq(ss[i].as_str(), t.as_str()) {
                        proof {
                            assert(ss.deep_view()[i as int] == t@);
                            assert(ss.deep_view().contains(t@));
                        }
                        return true;
                    }
                    i += 1;
                }
                proof {
                    assert(forall|k: int|
                        0 <= k < ss.deep_view().len() ==> ss.deep_view()[k] != t@);
                    assert(!ss.deep_view().contains(t@));
                }
                false
            },
            _ => false,
        },
    }
}

/// Decides whether a node matches a record.
pub fn node_matches_exec(obj: &FieldMap, node: &FilterNode) -> (r: bool)
    ensures
        r == node_matches(obj@, node@),
{
    match obj.get(node.name.as_str()) {
        None => false,
        Some(v) => {
            let mut i: usize = 0;
            while i < node.opvals.len()
                invariant
                    i <= node.opvals.len(),
                    obj@.contains_key(node@.name) && v@ == obj@[node@.name],
                    forall|k: int|
                        0 <= k < i ==> !op_matches(#[trigger] node.opvals.deep_view()[k], v@),
                decreases node.opvals.len() - i,
            {
                if op_matches_exec(&node.opvals[i], v) {
                    proof {
                        assert(node@.opvals[i as int] == node.opvals@[i as int]@);
                        assert(op_matches(node@.opvals[i as int], obj@[node@.name]));
                    }
                    return true;
                }
                i += 1;
            }
            false
        },
    }
}

/// Decides whether a record passes a compiled filter.
pub fn nodes_match_exec(obj: &FieldMap, nodes: &Vec<FilterNode>) -> (r: bool)
    ensures
        r == nodes_match(obj@, nodes_view(nodes@)),
{
    let mut i: usize = 0;
    while i < nodes.len()
        invariant
            i <= nodes.len(),
            forall|k: int| 0 <= k < i ==> node_matches(obj@, #[trigger] nodes_view(nodes@)[k]),
        decreases nodes.len() - i,
    {
        if !node_matches_exec(obj, &nodes[i]) {
            proof {
                assert(nodes_view(nodes@)[i as int] == nodes@[i as int]@);
            }
            return false;
        }
        i += 1;
    }
    true
}

/// The operand of a filter operation, as the dispatch layer hands it over:
/// one string or a set of strings.
pub enum OpArg {
    One(String),
    Many(Vec<String>),
}

/// The mathematical value of an `OpArg`.
#[verifier::ext_equal]
pub enum OpArgV {
    One(Seq<char>),
    Many(Seq<Seq<char>>),
}

impl View for OpArg {
    type V = OpArgV;

    open spec fn view(&self) -> OpArgV {
        match self {
            OpArg::One(s) => OpArgV::One(s@),
            OpArg::Many(ss) => OpArgV::Many(ss.deep_view()),
        }
    }
}

/// What compiling one operation token yields: a recognized token with an
/// operand of the right shape compiles, anything else is `FilterInvalid`.
pub open spec fn spec_parse_op(op: Seq<char>, arg: OpArgV) -> Result<OpValStringV, ErrorV> {
    if op == "$eq"@ {
        match arg {
            OpArgV::One(s) => Ok(OpValStringV::Eq(s)),
            OpArgV::Many(_) => Err(ErrorV::FilterInvalid),
        }
    } else if op == "$contains"@ {
        match arg {
            OpArgV::One(s) => Ok(OpValStringV::Contains(s)),
            OpArgV::Many(_) => Err(ErrorV::FilterInvalid),
        }
    } else if op == "$in"@ {
        match arg {
            OpArgV::One(_) => Err(ErrorV::FilterInvalid),
            OpArgV::Many(ss) => Ok(OpValStringV::In(ss)),
        }
    } else {
        Err(ErrorV::FilterInvalid)
    }
}

/// Compiles one operation token and operand; an unrecognized token or an
/// operand of the wrong shape fails with `FilterInvalid`.
pub fn parse_op(op: &str, arg: OpArg) -> (r: Result<OpValString, Error>)
    ensures
        r matches Ok(v) ==> spec_parse_op(op@, arg@) matches Ok(w) && v@ == w,
        r matches Err(e) ==> spec_parse_op(op@, arg@) matches Err(w) && e@ == w,
{
    if str_eq(op, "$eq") {
        match arg {
            OpArg::One(s) => Ok(OpValString::Eq(s)),
            OpArg::Many(_) => Err(Error::FilterInvalid),
        }
    } else if str_eq(op, "$contains") {
        match arg {
            OpArg::One(s) => Ok(OpValString::Contains(s)),
            OpArg::Many(_) => Err(Error::FilterInvalid),
        }
    } else if str_eq(op, "$in") {
        match arg {
            OpArg::One(_) => Err(Error::FilterInvalid),
            OpArg::Many(ss) => Ok(OpValString::In(ss)),
        }
    } else {
        Err(Error::FilterInvalid)
    }
}

} // verus!
