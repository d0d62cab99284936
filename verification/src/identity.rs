//! The identity map of a user namespace: which host user and group the
//! container's root stands for, and the text that tells the kernel so.

use vstd::prelude::*;

verus! {

/// One line of a user-namespace map: `length` consecutive identities that
/// start at `inside` within the namespace are those that start at `outside`
/// on the host.
#[derive(Clone, Copy, Debug, PartialEq, Eq, Hash)]
pub struct MappingRule {
    pub inside: u32,
    pub outside: u32,
    pub length: u32,
}

/// The identity map of one launch: a rule for users, a rule for groups, and
/// whether the namespace gives up supplementary groups.
#[derive(Clone, Copy, Debug, PartialEq, Eq, Hash)]
pub struct IdentityMap {
    pub users: MappingRule,
    pub groups: MappingRule,
    pub deny_supplementary_groups: bool,
}

/// The control file of the user map of the calling process.
pub const UID_MAP_FILE: &'static str = "/proc/self/uid_map";

/// The control file that decides on supplementary groups.
pub const SETGROUPS_FILE: &'static str = "/proc/self/setgroups";

/// The control file of the group map of the calling process.
pub const GID_MAP_FILE: &'static str = "/proc/self/gid_map";

/// The map that makes the host's `uid` and `gid` the root of the namespace:
/// identity 0 inside stands for them, in a range of length 1, and
/// supplementary groups are given up.
pub open spec fn invoker_map(uid: u32, gid: u32) -> IdentityMap {
    IdentityMap {
        users: MappingRule { inside: 0, outside: uid, length: 1 },
        groups: MappingRule { inside: 0, outside: gid, length: 1 },
        deny_supplementary_groups: true,
    }
}

/// The decimal digits of `n` as ASCII bytes, most significant first, without
/// leading zeros.
pub open spec fn decimal_of(n: nat) -> Seq<u8>
    decreases n,
{
    if n < 10 {
        seq![(48 + n) as u8]
    } else {
        decimal_of(n / 10).push((48 + n % 10) as u8)
    }
}

/// The number that a sequence of ASCII digits denotes.
pub open spec fn value_of(digits: Seq<u8>) -> nat
    decreases digits.len(),
{
    if digits.len() == 0 {
        0
    } else {
        (value_of(digits.drop_last()) * 10 + (digits.last() - 48)) as nat
    }
}

/// The text of a rule as the kernel reads it: the three numbers in decimal,
/// separated by single spaces.
pub open spec fn rule_text(rule: MappingRule) -> Seq<u8> {
    decimal_of(rule.inside as nat) + seq![32u8] + decimal_of(rule.outside as nat) + seq![32u8]
        + decimal_of(rule.length as nat)
}

/// The word that gives up supplementary groups: `deny`.
pub open spec fn deny_text() -> Seq<u8> {
    seq![100u8, 101u8, 110u8, 121u8]
}

impl MappingRule {
    /// The host identity that `id` inside the namespace stands for, if the
    /// rule covers `id`.
    pub open spec fn host_of(self, id: int) -> Option<int> {
        if self.inside <= id < self.inside + self.length {
            Some(self.outside + (id - self.inside))
        } else {
            None
        }
    }

    /// The rule as text for the kernel's map file.
    pub fn render(&self) -> (text: Vec<u8>)
        ensures
            text@ == rule_text(*self),
    {
        let mut text: Vec<u8> = Vec::new();
        push_decimal(&mut text, self.inside);
        text.push(32u8);
        push_decimal(&mut text, self.outside);
        text.push(32u8);
        push_decimal(&mut text, self.length);
        assert(text@ =~= rule_text(*self));
        text
    }
}

impl IdentityMap {
    /// The map that makes the invoking user and group the root of the
    /// namespace: identity 0 inside stands for `uid` (for `gid`) outside, no
    /// other identity is mapped, and supplementary groups are given up.
    pub fn for_invoker(uid: u32, gid: u32) -> (map: IdentityMap)
        ensures
            map == invoker_map(uid, gid),
            forall|id: int| #[trigger]
                map.users.host_of(id) == (if id == 0 {
                    Some(uid as int)
                } else {
                    None
                }),
            forall|id: int| #[trigger]
                map.groups.host_of(id) == (if id == 0 {
                    Some(gid as int)
                } else {
                    None
                }),
    {
        IdentityMap {
            users: MappingRule { inside: 0, outside: uid, length: 1 },
            groups: MappingRule { inside: 0, outside: gid, length: 1 },
            deny_supplementary_groups: true,
        }
    }

    /// The content of the user map's control file.
    pub fn uid_map_text(&self) -> (text: Vec<u8>)
        ensures
            text@ == rule_text(self.users),
    {
        self.users.render()
    }

    /// The content of the group map's control file.
    pub fn gid_map_text(&self) -> (text: Vec<u8>)
        ensures
            text@ == rule_text(self.groups),
    {
        self.groups.render()
    }
}

/// The content of the control file that gives up supplementary groups.
pub fn setgroups_text() -> (text: Vec<u8>)
    ensures
        text@ == deny_text(),
{
    let mut text: Vec<u8> = Vec::new();
    text.push(100u8);
    text.push(101u8);
    text.push(110u8);
    text.push(121u8);
    assert(text@ =~= deny_text());
    text
}

/// Appends the decimal digits of `n` to `out`.
pub fn push_decimal(out: &mut Vec<u8>, n: u32)
    ensures
        final(out)@ == old(out)@ + decimal_of(n as nat),
    decreases n,
{
    if n >= 10 {
        push_decimal(out, n / 10);
    }
    let digit: u8 = (n % 10) as u8;
    out.push(48u8 + digit);
    assert(final(out)@ =~= old(out)@ + decimal_of(n as nat));
}

/// Every byte of a decimal rendering is an ASCII digit, the rendering has no
/// leading zero unless it is the single digit `0`, and reading it back gives
/// the number that was rendered.
pub proof fn lemma_decimal_round_trip(n: nat)
    ensures
        decimal_of(n).len() >= 1,
        forall|i: int| 0 <= i < decimal_of(n).len() ==> 48 <= #[trigger] decimal_of(n)[i] <= 57,
        decimal_of(n)[0] == 48 ==> n == 0,
        value_of(decimal_of(n)) == n,
    decreases n,
{
    if n < 10 {
        let d = decimal_of(n);
        assert(d.drop_last() =~= Seq::<u8>::empty());
        assert(value_of(d.drop_last()) == 0);
    } else {
        lemma_decimal_round_trip(n / 10);
        let head = decimal_of(n / 10);
        let d = decimal_of(n);
        assert(d.drop_last() =~= head);
        assert(d.last() == (48 + n % 10) as u8);
        assert(d[0] == head[0]);
    }
}

/// Two numbers with the same decimal rendering are the same number.
pub proof fn lemma_decimal_injective(a: nat, b: nat)
    requires
        decimal_of(a) == decimal_of(b),
    ensures
        a == b,
{
    lemma_decimal_round_trip(a);
    lemma_decimal_round_trip(b);
}

} // verus!
