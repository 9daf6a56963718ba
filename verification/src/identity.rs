//! Channel identities: a (name, version) pair and its canonical string key.

use vstd::prelude::*;
use vstd::string::StringExecFns;

verus! {

/// The canonical key for a channel: name, a `:` separator, then version.
/// No escaping is performed, so callers must keep `:` out of both parts.
pub open spec fn key_of(name: Seq<char>, version: Seq<char>) -> Seq<char> {
    name + seq![':'] + version
}

/// A named + versioned channel identity. Equality is exact string match on
/// both fields; no normalization.
pub struct ChannelIdentity {
    pub name: String,
    pub version: String,
}

impl ChannelIdentity {
    /// The canonical key of this identity, as a mathematical sequence.
    pub open spec fn key(self) -> Seq<char> {
        key_of(self.name@, self.version@)
    }

    pub fn new(name: String, version: String) -> (r: ChannelIdentity)
        ensures
            r.name == name,
            r.version == version,
    {
        ChannelIdentity { name, version }
    }

    pub fn clone_id(&self) -> (r: ChannelIdentity)
        ensures
            r.name@ == self.name@,
            r.version@ == self.version@,
            r.key() == self.key(),
    {
        ChannelIdentity { name: self.name.clone(), version: self.version.clone() }
    }

    /// Derive the canonical map key: pure concatenation with a `:` separator.
    pub fn canonical_key(&self) -> (r: String)
        ensures
            r@ == self.key(),
    {
        let mut s = self.name.clone();
        s.append(":");
        s.append(self.version.as_str());
        proof {
            reveal_strlit(":");
            assert(s@ =~= key_of(self.name@, self.version@));
        }
        s
    }
}

} // verus!
