//! Per-field substitution directives and the consumable queue that carries
//! them through one field's rewrite pass.
//!
//! A directive pairs a source type name with a mode: substitute the
//! conventional mirrored name, leave the name as it is, or substitute an
//! explicit replacement. The queue is owned by exactly one field's rewrite;
//! it shrinks as matches are found and must be empty when the field's type
//! tree has been fully rewritten.

use vstd::prelude::*;

verus! {

/// How a matched type name is substituted.
#[derive(Debug, PartialEq)]
pub enum DirectiveMode {
    /// Substitute the name with the conventional mirrored name.
    UseMirror,
    /// Leave the name unchanged.
    UseSame,
    /// Substitute the name with `target`.
    UseExplicit { target: String },
}

/// One (source type name, substitution mode) pair from a field's local
/// directive annotation.
#[derive(Debug, PartialEq)]
pub struct Directive {
    pub source_name: String,
    pub mode: DirectiveMode,
}

impl DirectiveMode {
    /// An exact copy.
    pub fn duplicate(&self) -> (r: DirectiveMode)
        ensures
            r == *self,
    {
        match self {
            DirectiveMode::UseMirror => DirectiveMode::UseMirror,
            DirectiveMode::UseSame => DirectiveMode::UseSame,
            DirectiveMode::UseExplicit { target } => DirectiveMode::UseExplicit {
                target: target.clone(),
            },
        }
    }
}

impl Directive {
    /// An exact copy.
    pub fn duplicate(&self) -> (r: Directive)
        ensures
            r == *self,
    {
        Directive { source_name: self.source_name.clone(), mode: self.mode.duplicate() }
    }
}

/// Two modes name the same substitution target: both mirror, both same, or
/// both the same explicit replacement name.
pub open spec fn spec_target_eq(a: DirectiveMode, b: DirectiveMode) -> bool {
    match (a, b) {
        (DirectiveMode::UseMirror, DirectiveMode::UseMirror) => true,
        (DirectiveMode::UseSame, DirectiveMode::UseSame) => true,
        (
            DirectiveMode::UseExplicit { target: x },
            DirectiveMode::UseExplicit { target: y },
        ) => x@ == y@,
        _ => false,
    }
}

/// The first entry at or after position `i` whose source name is `name`.
pub open spec fn spec_find_named_from(q: Seq<Directive>, i: int, name: Seq<char>) -> Option<
    Directive,
>
    decreases q.len() - i,
{
    if i < 0 || i >= q.len() {
        None
    } else if q[i].source_name@ == name {
        Some(q[i])
    } else {
        spec_find_named_from(q, i + 1, name)
    }
}

/// The first entry anywhere in the queue whose source name is `name`.
pub open spec fn spec_find_named(q: Seq<Directive>, name: Seq<char>) -> Option<Directive> {
    spec_find_named_from(q, 0, name)
}

/// The queue with every entry removed whose source name is `source` or
/// whose target is that of `mode`, keeping the order of the rest.
pub open spec fn spec_remove_matched_from(
    q: Seq<Directive>,
    i: int,
    source: Seq<char>,
    mode: DirectiveMode,
) -> Seq<Directive>
    decreases q.len() - i,
{
    if i < 0 || i >= q.len() {
        Seq::empty()
    } else {
        let rest = spec_remove_matched_from(q, i + 1, source, mode);
        if q[i].source_name@ == source || spec_target_eq(q[i].mode, mode) {
            rest
        } else {
            seq![q[i]] + rest
        }
    }
}

pub open spec fn spec_remove_matched(
    q: Seq<Directive>,
    source: Seq<char>,
    mode: DirectiveMode,
) -> Seq<Directive> {
    spec_remove_matched_from(q, 0, source, mode)
}

/// An ordered, consumable list of directives, owned by one field's rewrite.
#[derive(Debug, PartialEq)]
pub struct DirectiveQueue {
    pub entries: Vec<Directive>,
}

impl View for DirectiveQueue {
    type V = Seq<Directive>;

    open spec fn view(&self) -> Seq<Directive> {
        self.entries@
    }
}

/// Whether `a` and `b` name the same substitution target.
pub fn target_eq(a: &DirectiveMode, b: &DirectiveMode) -> (r: bool)
    ensures
        r == spec_target_eq(*a, *b),
{
    match (a, b) {
        (DirectiveMode::UseMirror, DirectiveMode::UseMirror) => true,
        (DirectiveMode::UseSame, DirectiveMode::UseSame) => true,
        (DirectiveMode::UseExplicit { target: x }, DirectiveMode::UseExplicit { target: y }) => *x
            == *y,
        _ => false,
    }
}

fn find_named_from(entries: &Vec<Directive>, i: usize, name: &String) -> (r: Option<Directive>)
    ensures
        r == spec_find_named_from(entries@, i as int, name@),
    decreases entries@.len() - i,
{
    if i >= entries.len() {
        None
    } else if entries[i].source_name == *name {
        Some(entries[i].duplicate())
    } else {
        find_named_from(entries, i + 1, name)
    }
}

fn remove_matched_from(
    entries: &Vec<Directive>,
    i: usize,
    source: &String,
    mode: &DirectiveMode,
) -> (r: Vec<Directive>)
    ensures
        r@ == spec_remove_matched_from(entries@, i as int, source@, *mode),
    decreases entries@.len() - i,
{
    if i >= entries.len() {
        Vec::new()
    } else {
        let mut rest = remove_matched_from(entries, i + 1, source, mode);
        if entries[i].source_name == *source || target_eq(&entries[i].mode, mode) {
            rest
        } else {
            rest.insert(0, entries[i].duplicate());
            proof {
                assert(rest@ =~= seq![entries@[i as int]] + spec_remove_matched_from(
                    entries@,
                    i + 1,
                    source@,
                    *mode,
                ));
            }
            rest
        }
    }
}

impl DirectiveQueue {
    /// An empty queue.
    pub fn empty() -> (r: DirectiveQueue)
        ensures
            r@ == Seq::<Directive>::empty(),
    {
        DirectiveQueue { entries: Vec::new() }
    }

    /// A queue holding `entries`, front first.
    pub fn from_entries(entries: Vec<Directive>) -> (r: DirectiveQueue)
        ensures
            r@ == entries@,
    {
        DirectiveQueue { entries }
    }

    pub fn len(&self) -> (r: usize)
        ensures
            r == self@.len(),
    {
        self.entries.len()
    }

    pub fn is_empty(&self) -> (r: bool)
        ensures
            r == (self@.len() == 0),
    {
        self.entries.len() == 0
    }

    /// The first entry whose source name equals `name`, if any.
    pub fn find_named(&self, name: &String) -> (r: Option<Directive>)
        ensures
            r == spec_find_named(self@, name@),
    {
        find_named_from(&self.entries, 0, name)
    }

    /// Remove every entry whose source name is `source` or whose target is
    /// that of `mode`.
    pub fn remove_matched(&mut self, source: &String, mode: &DirectiveMode)
        ensures
            final(self)@ == spec_remove_matched(old(self)@, source@, *mode),
    {
        let kept = remove_matched_from(&self.entries, 0, source, mode);
        self.entries = kept;
    }

    /// Dequeue the front entry.
    pub fn pop_front(&mut self) -> (r: Directive)
        requires
            old(self)@.len() > 0,
        ensures
            r == old(self)@[0],
            final(self)@ == old(self)@.drop_first(),
    {
        let r = self.entries.remove(0);
        proof {
            assert(self@ =~= old(self)@.drop_first());
        }
        r
    }

    /// Hand the remaining entries out, front first.
    pub fn into_entries(self) -> (r: Vec<Directive>)
        ensures
            r@ == self@,
    {
        self.entries
    }
}

} // verus!
