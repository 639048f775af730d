use crate::message_cached::{MessageCached, MessageType};
use regex::Regex;
use std::collections::VecDeque;
use vstd::prelude::*;

verus! {

/// What matching `text` against the regular expression `pattern` gives:
/// `None` where the pattern does not compile, else whether some part of the
/// text matches.
pub uninterp spec fn regex_match(pattern: Seq<char>, text: Seq<char>) -> Option<bool>;

/// Compiles the pattern with `Regex::new` and searches the text with
/// `Regex::is_match`; the outcome depends on the two strings alone.
#[verifier::external_body]
fn regex_is_match(pattern: &str, text: &str) -> (r: Option<bool>)
    ensures
        r == regex_match(pattern@, text@),
{
    Regex::new(pattern).ok().map(|re| re.is_match(text))
}

/// Whether a pattern criterion with the given match outcome excludes: only
/// a pattern that compiles and finds no match does.
pub fn rejects(outcome: Option<bool>) -> (b: bool)
    ensures
        b == (outcome == Some(false)),
{
    match outcome {
        Some(found) => !found,
        None => false,
    }
}

/// Whether the criterion `pattern` excludes `text`. An unset criterion, or
/// one that does not compile, excludes nothing.
pub open spec fn pattern_rejects(pattern: Option<String>, text: Seq<char>) -> bool {
    match pattern {
        Some(p) => regex_match(p@, text) == Some(false),
        None => false,
    }
}

/// Evaluates one pattern criterion against `text`.
pub fn pattern_excludes(pattern: &Option<String>, text: &str) -> (b: bool)
    ensures
        b == pattern_rejects(*pattern, text@),
{
    match pattern {
        Some(p) => rejects(regex_is_match(p.as_str(), text)),
        None => false,
    }
}

/// A set of message-type categories, one named flag per category.
#[derive(Debug, Clone, Copy, PartialEq, Eq, Structural)]
pub struct Flags {
    pub sync: bool,
    pub pdo: bool,
    pub sdo: bool,
    pub nmt: bool,
    pub lss: bool,
    pub emcy: bool,
    pub guard: bool,
    pub unknown: bool,
}

impl Flags {
    /// Whether every category of `other` is in `self`.
    pub open spec fn includes(self, other: Flags) -> bool {
        &&& other.sync ==> self.sync
        &&& other.pdo ==> self.pdo
        &&& other.sdo ==> self.sdo
        &&& other.nmt ==> self.nmt
        &&& other.lss ==> self.lss
        &&& other.emcy ==> self.emcy
        &&& other.guard ==> self.guard
        &&& other.unknown ==> self.unknown
    }

    /// The categories in `self` or in `other`.
    pub open spec fn joined(self, other: Flags) -> Flags {
        Flags {
            sync: self.sync || other.sync,
            pdo: self.pdo || other.pdo,
            sdo: self.sdo || other.sdo,
            nmt: self.nmt || other.nmt,
            lss: self.lss || other.lss,
            emcy: self.emcy || other.emcy,
            guard: self.guard || other.guard,
            unknown: self.unknown || other.unknown,
        }
    }

    /// The categories in `self` that are not in `other`.
    pub open spec fn without(self, other: Flags) -> Flags {
        Flags {
            sync: self.sync && !other.sync,
            pdo: self.pdo && !other.pdo,
            sdo: self.sdo && !other.sdo,
            nmt: self.nmt && !other.nmt,
            lss: self.lss && !other.lss,
            emcy: self.emcy && !other.emcy,
            guard: self.guard && !other.guard,
            unknown: self.unknown && !other.unknown,
        }
    }

    /// The set with every category, or with none.
    pub open spec fn uniform(value: bool) -> Flags {
        Flags {
            sync: value,
            pdo: value,
            sdo: value,
            nmt: value,
            lss: value,
            emcy: value,
            guard: value,
            unknown: value,
        }
    }

    /// The one category under which a type tag is ignored. Both directions
    /// of service data share a category.
    pub open spec fn category(t: MessageType) -> Flags {
        let e = Flags::uniform(false);
        match t {
            MessageType::SdoTx | MessageType::SdoRx => Flags { sdo: true, ..e },
            MessageType::Pdo => Flags { pdo: true, ..e },
            MessageType::Sync => Flags { sync: true, ..e },
            MessageType::Nmt => Flags { nmt: true, ..e },
            MessageType::Lss => Flags { lss: true, ..e },
            MessageType::Guarding => Flags { guard: true, ..e },
            MessageType::Emcy => Flags { emcy: true, ..e },
            MessageType::Unknown => Flags { unknown: true, ..e },
        }
    }

    /// The empty set.
    pub fn none() -> (f: Flags)
        ensures
            f == Flags::uniform(false),
    {
        Flags {
            sync: false,
            pdo: false,
            sdo: false,
            nmt: false,
            lss: false,
            emcy: false,
            guard: false,
            unknown: false,
        }
    }

    /// The set of all categories.
    pub fn all() -> (f: Flags)
        ensures
            f == Flags::uniform(true),
    {
        Flags {
            sync: true,
            pdo: true,
            sdo: true,
            nmt: true,
            lss: true,
            emcy: true,
            guard: true,
            unknown: true,
        }
    }

    /// The set that holds exactly the category of `t`.
    pub fn of_type(t: MessageType) -> (f: Flags)
        ensures
            f == Flags::category(t),
    {
        let mut f = Flags::none();
        match t {
            MessageType::SdoTx | MessageType::SdoRx => f.sdo = true,
            MessageType::Pdo => f.pdo = true,
            MessageType::Sync => f.sync = true,
            MessageType::Nmt => f.nmt = true,
            MessageType::Lss => f.lss = true,
            MessageType::Guarding => f.guard = true,
            MessageType::Emcy => f.emcy = true,
            MessageType::Unknown => f.unknown = true,
        }
        f
    }

    /// Whether every category of `other` is in `self`.
    pub fn contains(&self, other: Flags) -> (b: bool)
        ensures
            b == self.includes(other),
    {
        let low = (!other.sync || self.sync) && (!other.pdo || self.pdo) && (!other.sdo
            || self.sdo) && (!other.nmt || self.nmt);
        let high = (!other.lss || self.lss) && (!other.emcy || self.emcy) && (!other.guard
            || self.guard) && (!other.unknown || self.unknown);
        low && high
    }

    /// Union of two sets.
    pub fn union(self, other: Flags) -> (f: Flags)
        ensures
            f == self.joined(other),
    {
        Flags {
            sync: self.sync || other.sync,
            pdo: self.pdo || other.pdo,
            sdo: self.sdo || other.sdo,
            nmt: self.nmt || other.nmt,
            lss: self.lss || other.lss,
            emcy: self.emcy || other.emcy,
            guard: self.guard || other.guard,
            unknown: self.unknown || other.unknown,
        }
    }

    /// Difference of two sets.
    pub fn difference(self, other: Flags) -> (f: Flags)
        ensures
            f == self.without(other),
    {
        Flags {
            sync: self.sync && !other.sync,
            pdo: self.pdo && !other.pdo,
            sdo: self.sdo && !other.sdo,
            nmt: self.nmt && !other.nmt,
            lss: self.lss && !other.lss,
            emcy: self.emcy && !other.emcy,
            guard: self.guard && !other.guard,
            unknown: self.unknown && !other.unknown,
        }
    }

    /// Adds the categories of `other`.
    pub fn insert(&mut self, other: Flags)
        ensures
            *final(self) == old(self).joined(other),
    {
        *self = self.union(other);
    }

    /// Removes the categories of `other`.
    pub fn remove(&mut self, other: Flags)
        ensures
            *final(self) == old(self).without(other),
    {
        *self = self.difference(other);
    }
}

impl Default for Flags {
    fn default() -> (f: Flags)
        ensures
            f == Flags::uniform(false),
    {
        Flags::none()
    }
}

/// Per-field criteria on a message; an unset criterion accepts everything.
#[derive(Debug)]
pub struct DataFilter {
    /// Pattern that the hexadecimal payload rendering must match.
    pub regex: Option<String>,
    /// Node identifier that the message must carry.
    pub node_id: Option<u8>,
    /// Pattern that the identifier rendering must match.
    pub regex_cob: Option<String>,
}

impl Clone for DataFilter {
    fn clone(&self) -> (r: Self)
        ensures
            r == *self,
    {
        DataFilter {
            regex: self.regex.clone(),
            node_id: self.node_id,
            regex_cob: self.regex_cob.clone(),
        }
    }
}

impl Default for DataFilter {
    fn default() -> (f: DataFilter)
        ensures
            f.is_unset(),
    {
        DataFilter { regex: None, node_id: None, regex_cob: None }
    }
}

impl DataFilter {
    /// No criterion is set.
    pub open spec fn is_unset(&self) -> bool {
        self.regex is None && self.node_id is None && self.regex_cob is None
    }

    /// Whether the filter excludes `msg`: a criterion that is set and that
    /// the message does not meet.
    pub open spec fn excludes(&self, msg: &MessageCached) -> bool {
        ||| (self.node_id is Some && msg.msg.parsed_node_id != self.node_id)
        ||| pattern_rejects(self.regex_cob, msg.cob_str@)
        ||| pattern_rejects(self.regex, msg.hex_str@)
    }

    /// `self` keeps every criterion that `base` sets, and may set more.
    pub open spec fn extends(&self, base: &DataFilter) -> bool {
        &&& base.node_id is Some ==> self.node_id == base.node_id
        &&& base.regex_cob is Some ==> self.regex_cob == base.regex_cob
        &&& base.regex is Some ==> self.regex == base.regex
    }

    /// Returns `true` if the message is to be left out: node identifier
    /// first, then the identifier pattern, then the payload pattern.
    pub fn filter(&self, msg: &MessageCached) -> (excluded: bool)
        ensures
            excluded == self.excludes(msg),
    {
        match self.node_id {
            Some(wanted) => {
                match msg.msg.parsed_node_id {
                    Some(found) => {
                        if found != wanted {
                            return true;
                        }
                    },
                    None => {
                        return true;
                    },
                }
            },
            None => {},
        }
        if pattern_excludes(&self.regex_cob, msg.cob_str.as_str()) {
            return true;
        }
        pattern_excludes(&self.regex, msg.hex_str.as_str())
    }
}

/// Type-category flags to ignore, together with the active data filter.
#[derive(Debug)]
pub struct GlobalFilter {
    pub ignore_type: Flags,
    pub data: DataFilter,
}

impl Clone for GlobalFilter {
    fn clone(&self) -> (r: Self)
        ensures
            r == *self,
    {
        GlobalFilter { ignore_type: self.ignore_type, data: self.data.clone() }
    }
}

impl Default for GlobalFilter {
    fn default() -> (f: GlobalFilter)
        ensures
            f.ignore_type == Flags::uniform(false),
            f.data.is_unset(),
    {
        GlobalFilter { ignore_type: Flags::none(), data: DataFilter::default() }
    }
}

impl GlobalFilter {
    /// The messages of `data` that the filter lets through, in their order.
    pub open spec fn survivors(&self, data: Seq<MessageCached>) -> Seq<MessageCached> {
        data.filter(|m: MessageCached| !self.excludes(&m))
    }

    /// Narrows `data` to the messages that survive the filter.
    pub fn accepted<'a>(&self, data: &'a VecDeque<MessageCached>) -> (out: Vec<&'a MessageCached>)
        ensures
            out@.map_values(|m: &MessageCached| *m) == self.survivors(data@),
    {
        let mut out: Vec<&'a MessageCached> = Vec::new();
        let n: usize = data.len();
        let mut i: usize = 0;
        while i < n
            invariant
                n == data@.len(),
                i <= n,
                out@.map_values(|m: &MessageCached| *m) == self.survivors(data@.take(i as int)),
            decreases n - i,
        {
            let msg = &data[i];
            proof {
                reveal_with_fuel(Seq::filter, 2);
                assert(data@.take(i + 1).drop_last() =~= data@.take(i as int));
            }
            let ghost before = out@;
            if !self.filter(msg) {
                out.push(msg);
                assert(out@.map_values(|m: &MessageCached| *m) =~= before.map_values(
                    |m: &MessageCached| *m,
                ).push(*msg));
            }
            i += 1;
        }
        assert(data@.take(n as int) =~= data@);
        out
    }

    /// Whether the filter excludes `msg`: the data filter does, or the
    /// category of the message's type is ignored.
    pub open spec fn excludes(&self, msg: &MessageCached) -> bool {
        self.data.excludes(msg) || self.ignore_type.includes(
            Flags::category(msg.msg.parsed_type),
        )
    }

    /// Returns `true` if the message is to be left out.
    pub fn filter(&self, msg: &MessageCached) -> (excluded: bool)
        ensures
            excluded == self.excludes(msg),
    {
        if self.data.filter(msg) {
            return true;
        }
        self.ignore_type.contains(Flags::of_type(msg.msg.parsed_type))
    }
}

/// A data filter with no criterion set excludes no message.
pub proof fn lemma_unset_filter_excludes_nothing(filter: DataFilter, msg: MessageCached)
    requires
        filter.is_unset(),
    ensures
        !filter.excludes(&msg),
{
}

/// Setting further criteria only narrows: whatever a filter excludes, every
/// filter that keeps its criteria and adds others excludes too.
pub proof fn lemma_added_criteria_narrow(base: DataFilter, narrowed: DataFilter, msg: MessageCached)
    requires
        narrowed.extends(&base),
        base.excludes(&msg),
    ensures
        narrowed.excludes(&msg),
{
}

/// Each criterion excludes on its own account: a message that fails one set
/// criterion is excluded whatever the other two are.
pub proof fn lemma_criteria_independent(filter: DataFilter, msg: MessageCached)
    ensures
        filter.node_id is Some && msg.msg.parsed_node_id != filter.node_id ==> filter.excludes(
            &msg,
        ),
        pattern_rejects(filter.regex_cob, msg.cob_str@) ==> filter.excludes(&msg),
        pattern_rejects(filter.regex, msg.hex_str@) ==> filter.excludes(&msg),
{
}

/// Ignoring a category excludes every message of that category whatever the
/// data filter says, and excludes no message of another category that the
/// data filter accepts.
pub proof fn lemma_ignored_category(filter: GlobalFilter, t: MessageType, msg: MessageCached)
    requires
        filter.ignore_type == Flags::category(t),
    ensures
        Flags::category(msg.msg.parsed_type) == Flags::category(t) ==> filter.excludes(&msg),
        Flags::category(msg.msg.parsed_type) != Flags::category(t) ==> (filter.excludes(&msg)
            <==> filter.data.excludes(&msg)),
{
}

/// Whatever the data filter and the other flags, a message whose category
/// is ignored is excluded, and one that the data filter accepts is excluded
/// exactly when its category is ignored.
pub proof fn lemma_type_flags_decide(filter: GlobalFilter, msg: MessageCached)
    ensures
        filter.ignore_type.includes(Flags::category(msg.msg.parsed_type)) ==> filter.excludes(
            &msg,
        ),
        !filter.data.excludes(&msg) ==> (filter.excludes(&msg) <==> filter.ignore_type.includes(
            Flags::category(msg.msg.parsed_type),
        )),
{
}

} // verus!
