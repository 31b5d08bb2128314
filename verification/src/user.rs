//! Users of the chat server: a mutable display name, an immutable
//! 64-character canonical identity, a 4-bit permission level, and the RSA
//! public key bound to the identity.

use crate::permissions;
use crate::text::{dec_of, push_dec};
use vstd::prelude::*;
use vstd::string::{StrSliceExecFns, StringExecFns};

verus! {

/// The constraint a rejected user field violated.
#[derive(Clone, Copy, Debug, PartialEq, Eq, Structural)]
pub enum ValidationError {
    /// The username is longer than 64 characters.
    UsernameTooLong,
    /// The username is empty.
    UsernameEmpty,
    /// The canonical name is not exactly 64 characters long.
    CanonicalNameLength,
    /// The permission level does not fit in 4 bits.
    PermissionLevelRange,
}

/// A user of the chat server.
#[derive(Clone, Debug)]
pub struct User {
    username: String,
    canonical_name: String,
    permission_level: u8,
    public_key: rsa::RsaPublicKey,
}

impl User {
    /// The username's characters.
    pub closed spec fn spec_username(self) -> Seq<char> {
        self.username@
    }

    /// The canonical name's characters.
    pub closed spec fn spec_canonical_name(self) -> Seq<char> {
        self.canonical_name@
    }

    /// The permission level.
    pub closed spec fn spec_permission_level(self) -> u8 {
        self.permission_level
    }

    /// The public key bound to this identity.
    pub closed spec fn spec_public_key(self) -> rsa::RsaPublicKey {
        self.public_key
    }

    /// The field constraints every user satisfies: a non-empty username of
    /// at most 64 characters, a canonical name of exactly 64 characters,
    /// and a 4-bit permission level.
    pub open spec fn wf(self) -> bool {
        &&& 1 <= self.spec_username().len() <= 64
        &&& self.spec_canonical_name().len() == 64
        &&& self.spec_permission_level() <= 15
    }

    /// Validates the fields and creates the user. Each constraint is
    /// checked in turn; the first violated one is reported.
    pub fn new(
        username: &str,
        canonical_name: &str,
        permission_level: u8,
        public_key: rsa::RsaPublicKey,
    ) -> (r: Result<User, ValidationError>)
        ensures
            r matches Err(ValidationError::UsernameTooLong) <==> username@.len() > 64,
            r matches Err(ValidationError::UsernameEmpty) <==> (username@.len() == 0),
            r matches Err(ValidationError::CanonicalNameLength) <==> (1 <= username@.len() <= 64
                && canonical_name@.len() != 64),
            r matches Err(ValidationError::PermissionLevelRange) <==> (1 <= username@.len() <= 64
                && canonical_name@.len() == 64 && permission_level > 15),
            r is Ok <==> (1 <= username@.len() <= 64 && canonical_name@.len() == 64
                && permission_level <= 15),
            r matches Ok(u) ==> {
                &&& u.spec_username() == username@
                &&& u.spec_canonical_name() == canonical_name@
                &&& u.spec_permission_level() == permission_level
                &&& u.spec_public_key() == public_key
                &&& u.wf()
            },
    {
        if username.unicode_len() > 64 {
            return Err(ValidationError::UsernameTooLong);
        }
        if username.unicode_len() == 0 {
            return Err(ValidationError::UsernameEmpty);
        }
        if canonical_name.unicode_len() != 64 {
            return Err(ValidationError::CanonicalNameLength);
        }
        if permission_level > 15 {
            return Err(ValidationError::PermissionLevelRange);
        }
        Ok(User {
            username: username.to_owned(),
            canonical_name: canonical_name.to_owned(),
            permission_level,
            public_key,
        })
    }

    pub fn username(&self) -> (r: &str)
        ensures
            r@ == self.spec_username(),
    {
        self.username.as_str()
    }

    pub fn canonical_name(&self) -> (r: &str)
        ensures
            r@ == self.spec_canonical_name(),
    {
        self.canonical_name.as_str()
    }

    pub fn permission_level(&self) -> (r: u8)
        ensures
            r == self.spec_permission_level(),
    {
        self.permission_level
    }

    pub fn public_key(&self) -> (r: &rsa::RsaPublicKey)
        ensures
            *r == self.spec_public_key(),
    {
        &self.public_key
    }

    /// Replaces the username, or rejects it and leaves the user unchanged.
    pub fn set_username(&mut self, username: &str) -> (r: Result<(), ValidationError>)
        ensures
            r matches Err(ValidationError::UsernameTooLong) <==> username@.len() > 64,
            r matches Err(ValidationError::UsernameEmpty) <==> username@.len() == 0,
            r is Ok <==> 1 <= username@.len() <= 64,
            r is Ok ==> final(self).spec_username() == username@,
            r is Err ==> *final(self) == *old(self),
            final(self).spec_canonical_name() == old(self).spec_canonical_name(),
            final(self).spec_permission_level() == old(self).spec_permission_level(),
            final(self).spec_public_key() == old(self).spec_public_key(),
            old(self).wf() ==> final(self).wf(),
    {
        if username.unicode_len() > 64 {
            return Err(ValidationError::UsernameTooLong);
        }
        if username.unicode_len() == 0 {
            return Err(ValidationError::UsernameEmpty);
        }
        self.username = username.to_owned();
        Ok(())
    }

    /// Replaces the permission level, or rejects it and leaves the user
    /// unchanged.
    pub fn set_permission_level(&mut self, permission_level: u8) -> (r: Result<
        (),
        ValidationError,
    >)
        ensures
            r is Ok <==> permission_level <= 15,
            r matches Err(e) ==> e == ValidationError::PermissionLevelRange,
            r is Ok ==> final(self).spec_permission_level() == permission_level,
            r is Err ==> *final(self) == *old(self),
            final(self).spec_username() == old(self).spec_username(),
            final(self).spec_canonical_name() == old(self).spec_canonical_name(),
            final(self).spec_public_key() == old(self).spec_public_key(),
            old(self).wf() ==> final(self).wf(),
    {
        if permission_level > 15 {
            return Err(ValidationError::PermissionLevelRange);
        }
        self.permission_level = permission_level;
        Ok(())
    }

    /// Whether this user's level reaches an ordinally compared threshold.
    pub fn has_permission(&self, required_level: u8) -> (r: bool)
        ensures
            r == (self.spec_permission_level() >= required_level),
    {
        self.permission_level >= required_level
    }

    /// One-line description of the user, with the tier name of its level.
    pub fn describe(&self) -> (r: String)
        ensures
            r@ == "User '"@ + self.spec_username() + "' with permission level "@ + dec_of(
                self.spec_permission_level() as nat,
            ) + " ("@ + level_name(self.spec_permission_level()) + ")"@,
    {
        let mut out = String::new();
        out.append("User '");
        out.append(self.username.as_str());
        out.append("' with permission level ");
        push_dec(&mut out, self.permission_level as u64);
        out.append(" (");
        out.append(level_name_str(self.permission_level));
        out.append(")");
        proof {
            assert(out@ =~= "User '"@ + self.spec_username() + "' with permission level "@
                + dec_of(self.spec_permission_level() as nat) + " ("@ + level_name(
                self.spec_permission_level(),
            ) + ")"@);
        }
        out
    }
}

/// The name of a permission tier: one of the named constants, or a custom
/// tier for any other value.
pub open spec fn level_name(level: u8) -> Seq<char> {
    if level == permissions::GUEST {
        "Guest"@
    } else if level == permissions::REGULAR {
        "Regular"@
    } else if level == permissions::PREMIUM {
        "Premium"@
    } else if level == permissions::MODERATOR {
        "Moderator"@
    } else if level == permissions::ADMIN {
        "Admin"@
    } else {
        "Custom"@
    }
}

/// The tier name as text.
pub fn level_name_str(level: u8) -> (r: &'static str)
    ensures
        r@ == level_name(level),
{
    if level == permissions::GUEST {
        "Guest"
    } else if level == permissions::REGULAR {
        "Regular"
    } else if level == permissions::PREMIUM {
        "Premium"
    } else if level == permissions::MODERATOR {
        "Moderator"
    } else if level == permissions::ADMIN {
        "Admin"
    } else {
        "Custom"
    }
}

} // verus!
