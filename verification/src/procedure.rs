//! The remote procedures of the three lists a server keeps: who may connect
//! (the allowlist), which players are banned, which addresses are banned.

use vstd::prelude::*;

verus! {

/// A remote procedure. Each list has five: to read it, to replace it, to add
/// to it, to remove from it and to empty it.
#[derive(Debug, Clone, Copy, PartialEq, Eq, Hash)]
pub enum Procedure {
    AllowlistGet,
    AllowlistSet,
    AllowlistAdd,
    AllowlistRemove,
    AllowlistClear,
    BansGet,
    BansSet,
    BansAdd,
    BansRemove,
    BansClear,
    IpBansGet,
    IpBansSet,
    IpBansAdd,
    IpBansRemove,
    IpBansClear,
}

impl Procedure {
    /// The name under which the server has registered the procedure. The
    /// server compares names byte for byte.
    pub open spec fn spec_name(self) -> Seq<char> {
        match self {
            Procedure::AllowlistGet => "allowlist"@,
            Procedure::AllowlistSet => "allowlist/set"@,
            Procedure::AllowlistAdd => "allowlist/add"@,
            Procedure::AllowlistRemove => "allowlist/remove"@,
            Procedure::AllowlistClear => "allowlist/clear"@,
            Procedure::BansGet => "bans"@,
            Procedure::BansSet => "bans/set"@,
            Procedure::BansAdd => "bans/add"@,
            Procedure::BansRemove => "bans/remove"@,
            Procedure::BansClear => "bans/clear"@,
            Procedure::IpBansGet => "ip_bans"@,
            Procedure::IpBansSet => "ip_bans/set"@,
            Procedure::IpBansAdd => "ip_bans/add"@,
            Procedure::IpBansRemove => "ip_bans/remove"@,
            Procedure::IpBansClear => "ip_bans/clear"@,
        }
    }

    /// The name under which the server has registered the procedure.
    pub fn name(self) -> (name: &'static str)
        ensures
            name@ == self.spec_name(),
    {
        match self {
            Procedure::AllowlistGet => "allowlist",
            Procedure::AllowlistSet => "allowlist/set",
            Procedure::AllowlistAdd => "allowlist/add",
            Procedure::AllowlistRemove => "allowlist/remove",
            Procedure::AllowlistClear => "allowlist/clear",
            Procedure::BansGet => "bans",
            Procedure::BansSet => "bans/set",
            Procedure::BansAdd => "bans/add",
            Procedure::BansRemove => "bans/remove",
            Procedure::BansClear => "bans/clear",
            Procedure::IpBansGet => "ip_bans",
            Procedure::IpBansSet => "ip_bans/set",
            Procedure::IpBansAdd => "ip_bans/add",
            Procedure::IpBansRemove => "ip_bans/remove",
            Procedure::IpBansClear => "ip_bans/clear",
        }
    }
}

/// How long a text is, and the characters it begins and ends with. This is
/// enough to tell the names of the procedures apart.
spec fn outline(text: Seq<char>) -> (nat, char, char) {
    (text.len(), text.first(), text.last())
}

/// The outline of the name of each procedure.
spec fn name_outline(procedure: Procedure) -> (nat, char, char) {
    match procedure {
        Procedure::AllowlistGet => (9, 'a', 't'),
        Procedure::AllowlistSet => (13, 'a', 't'),
        Procedure::AllowlistAdd => (13, 'a', 'd'),
        Procedure::AllowlistRemove => (16, 'a', 'e'),
        Procedure::AllowlistClear => (15, 'a', 'r'),
        Procedure::BansGet => (4, 'b', 's'),
        Procedure::BansSet => (8, 'b', 't'),
        Procedure::BansAdd => (8, 'b', 'd'),
        Procedure::BansRemove => (11, 'b', 'e'),
        Procedure::BansClear => (10, 'b', 'r'),
        Procedure::IpBansGet => (7, 'i', 's'),
        Procedure::IpBansSet => (11, 'i', 't'),
        Procedure::IpBansAdd => (11, 'i', 'd'),
        Procedure::IpBansRemove => (14, 'i', 'e'),
        Procedure::IpBansClear => (13, 'i', 'r'),
    }
}

proof fn lemma_name_outline(procedure: Procedure)
    ensures
        outline(procedure.spec_name()) == name_outline(procedure),
{
    reveal_strlit("allowlist");
    reveal_strlit("allowlist/set");
    reveal_strlit("allowlist/add");
    reveal_strlit("allowlist/remove");
    reveal_strlit("allowlist/clear");
    reveal_strlit("bans");
    reveal_strlit("bans/set");
    reveal_strlit("bans/add");
    reveal_strlit("bans/remove");
    reveal_strlit("bans/clear");
    reveal_strlit("ip_bans");
    reveal_strlit("ip_bans/set");
    reveal_strlit("ip_bans/add");
    reveal_strlit("ip_bans/remove");
    reveal_strlit("ip_bans/clear");
}

/// No two procedures share a name: the name that a request carries says
/// which procedure is meant.
pub proof fn lemma_names_differ(a: Procedure, b: Procedure)
    ensures
        a.spec_name() == b.spec_name() ==> a == b,
{
    lemma_name_outline(a);
    lemma_name_outline(b);
}

} // verus!
