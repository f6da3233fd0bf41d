//! The registry's records as mathematics, and what each operation makes of
//! them.
//!
//! The contracts of the operations and the laws of the registry are stated
//! over the functions of this module.
use crate::error::Error;
use crate::host::{
    extended_ttl, XDR_LIMIT, instance_entries, instance_ttl, max_ttl, number_of,
    persistent_entries, text_of, value_of, Entry, Stored,
};
use crate::keys::DataKey;
use crate::text::xdr_len;
use soroban_sdk::Env;
use vstd::prelude::*;

verus! {

/// The character limit of a registry in which none is recorded.
pub const DEFAULT_LIMIT: u32 = 32;

/// A record that has more than this many ledgers to live is not extended.
pub const TTL_THRESHOLD: u32 = 100;

/// The number of ledgers to which the time to live of a record is extended.
pub const TTL_EXTEND_TO: u32 = 100;

/// What the host stores for the executing contract.
pub ghost struct Registry {
    /// Instance storage, keyed by tag.
    pub instance: Map<Seq<char>, Stored>,
    /// Persistent storage, keyed by tag and user.
    pub persistent: Map<(Seq<char>, Seq<char>), Entry>,
    /// The time to live of instance storage.
    pub instance_ttl: nat,
    /// The longest time to live that the network grants.
    pub max_ttl: nat,
}

/// The key of persistent storage under which the count of `user` lives.
pub open spec fn count_key(user: Seq<char>) -> (Seq<char>, Seq<char>) {
    ("ContadorPorUsuario"@, user)
}

/// The key of persistent storage under which the last greeting of `user`
/// lives.
pub open spec fn last_key(user: Seq<char>) -> (Seq<char>, Seq<char>) {
    ("UltimoSaludo"@, user)
}

/// What extending with the registry's two constants makes of a time to live.
pub open spec fn refreshed_ttl(ttl: nat, max: nat) -> nat {
    extended_ttl(ttl, TTL_THRESHOLD as nat, TTL_EXTEND_TO as nat, max)
}

/// Whether `ttl` can be the time to live of a record after it was written and
/// then extended: a record that was there before has its old time to live,
/// extended; a new record starts with a time to live of the host's choosing,
/// so all that is known after the extension is that it reaches the target.
pub open spec fn refreshed(before: Option<Entry>, ttl: nat, max: nat) -> bool {
    match before {
        Some(entry) => ttl == refreshed_ttl(entry.ttl, max),
        None => ttl >= refreshed_ttl(0, max),
    }
}

impl Registry {
    /// The registry that `env` holds.
    pub open spec fn of(env: Env) -> Registry {
        Registry {
            instance: instance_entries(env),
            persistent: persistent_entries(env),
            instance_ttl: instance_ttl(env),
            max_ttl: max_ttl(env),
        }
    }

    /// Whether an administrator record exists.
    pub open spec fn initialized(self) -> bool {
        self.instance.dom().contains(DataKey::Admin.spec_tag())
    }

    /// The administrator, if one is recorded.
    pub open spec fn admin(self) -> Option<Seq<char>> {
        text_of(self.instance.get(DataKey::Admin.spec_tag()))
    }

    /// The number of greetings accepted since the last reset; 0 if none is
    /// recorded.
    pub open spec fn greeting_count(self) -> u32 {
        match number_of(self.instance.get(DataKey::ContadorSaludos.spec_tag())) {
            Some(n) => n,
            None => 0,
        }
    }

    /// The greatest length that the serialized form of a greeting may have;
    /// 32 if none is recorded.
    pub open spec fn character_limit(self) -> u32 {
        match number_of(self.instance.get(DataKey::LimiteCaracteres.spec_tag())) {
            Some(n) => n,
            None => DEFAULT_LIMIT,
        }
    }

    /// The number of greetings accepted from `user`; 0 if none is recorded.
    pub open spec fn user_count(self, user: Seq<char>) -> u32 {
        match number_of(value_of(self.persistent.get(count_key(user)))) {
            Some(n) => n,
            None => 0,
        }
    }

    /// The last greeting accepted from `user`, if one is recorded.
    pub open spec fn last_greeting(self, user: Seq<char>) -> Option<Seq<char>> {
        text_of(value_of(self.persistent.get(last_key(user))))
    }

    /// This registry with its records replaced and the time to live of
    /// instance storage extended.
    pub open spec fn with_instance_refreshed(self, instance: Map<Seq<char>, Stored>) -> Registry {
        Registry {
            instance,
            persistent: self.persistent,
            instance_ttl: refreshed_ttl(self.instance_ttl, self.max_ttl),
            max_ttl: self.max_ttl,
        }
    }

    /// This registry with its records replaced and no time to live touched.
    pub open spec fn with_instance(self, instance: Map<Seq<char>, Stored>) -> Registry {
        Registry {
            instance,
            persistent: self.persistent,
            instance_ttl: self.instance_ttl,
            max_ttl: self.max_ttl,
        }
    }

    /// What `initialize` answers: it is refused once an administrator record
    /// exists.
    pub open spec fn initialize_result(self) -> Result<(), Error> {
        if self.initialized() {
            Err(Error::NoInicializado)
        } else {
            Ok(())
        }
    }

    /// The registry after `initialize`: where it is accepted, `admin` is the
    /// administrator, the count is 0, the limit is 32 and the time to live of
    /// instance storage is extended; where it is refused, nothing changes.
    pub open spec fn after_initialize(self, admin: Seq<char>) -> Registry {
        if self.initialized() {
            self
        } else {
            self.with_instance_refreshed(
                self.instance.insert(DataKey::Admin.spec_tag(), Stored::Text(admin)).insert(
                    DataKey::ContadorSaludos.spec_tag(),
                    Stored::Number(0),
                ).insert(DataKey::LimiteCaracteres.spec_tag(), Stored::Number(DEFAULT_LIMIT)),
            )
        }
    }

    /// Whether `caller` may use the administrator's operations.
    pub open spec fn authorize(self, caller: Seq<char>) -> Result<(), Error> {
        match self.admin() {
            None => Err(Error::NoInicializado),
            Some(admin) => if admin == caller {
                Ok(())
            } else {
                Err(Error::NoAutorizado)
            },
        }
    }

    /// The registry after `set_limit`: where `caller` is authorized, the limit
    /// is `limit` and the time to live of instance storage is extended;
    /// otherwise nothing changes.
    pub open spec fn after_set_limit(self, caller: Seq<char>, limit: u32) -> Registry {
        if self.authorize(caller) is Ok {
            self.with_instance_refreshed(
                self.instance.insert(DataKey::LimiteCaracteres.spec_tag(), Stored::Number(limit)),
            )
        } else {
            self
        }
    }

    /// The registry after `reset_contador`: where `caller` is authorized, the
    /// count is 0; otherwise nothing changes. No time to live is touched.
    pub open spec fn after_reset(self, caller: Seq<char>) -> Registry {
        if self.authorize(caller) is Ok {
            self.with_instance(
                self.instance.insert(DataKey::ContadorSaludos.spec_tag(), Stored::Number(0)),
            )
        } else {
            self
        }
    }

    /// The registry after `transfer_admin`: where `caller` is authorized,
    /// `new_admin` is the administrator; otherwise nothing changes. No time to
    /// live is touched.
    pub open spec fn after_transfer(self, caller: Seq<char>, new_admin: Seq<char>) -> Registry {
        if self.authorize(caller) is Ok {
            self.with_instance(
                self.instance.insert(DataKey::Admin.spec_tag(), Stored::Text(new_admin)),
            )
        } else {
            self
        }
    }

    /// Why a greeting is refused, if it is: an empty one for being empty, one
    /// whose serialized form has more bytes than the limit for its length.
    pub open spec fn greeting_verdict(self, name: Seq<char>) -> Option<Error> {
        if name.len() == 0 {
            Some(Error::NombreVacio)
        } else if xdr_len(name) > self.character_limit() {
            Some(Error::NombreMuyLargo)
        } else {
            None
        }
    }

    /// Whether the host can be asked for the length of the serialized form of
    /// `name` wherever the verdict hangs on it. The host serializes into at
    /// most `XDR_LIMIT` bytes. Under a limit that is no greater, a form too
    /// long for the host is too long for the limit as well, and the host need
    /// not be asked.
    pub open spec fn can_measure(self, name: Seq<char>) -> bool {
        xdr_len(name) <= XDR_LIMIT || self.character_limit() <= XDR_LIMIT
    }

    /// Whether both counts that a greeting of `user` raises can be raised.
    pub open spec fn can_count(self, user: Seq<char>) -> bool {
        self.greeting_count() < u32::MAX && self.user_count(user) < u32::MAX
    }

    /// Whether `post` is the registry after an accepted greeting `name` of
    /// `user`: both counts could be raised; the count and the user's count
    /// are one higher, the user's last greeting is `name`, the times to live
    /// of the user's two records and of instance storage are extended, and
    /// nothing else has changed.
    pub open spec fn greeted(self, user: Seq<char>, name: Seq<char>, post: Registry) -> bool {
        let counter = count_key(user);
        let last = last_key(user);
        &&& self.can_count(user)
        &&& post.instance == self.instance.insert(
            DataKey::ContadorSaludos.spec_tag(),
            Stored::Number((self.greeting_count() + 1) as u32),
        )
        &&& post.instance_ttl == refreshed_ttl(self.instance_ttl, self.max_ttl)
        &&& post.max_ttl == self.max_ttl
        &&& post.persistent == self.persistent.insert(
            counter,
            Entry {
                value: Stored::Number((self.user_count(user) + 1) as u32),
                ttl: post.persistent[counter].ttl,
            },
        ).insert(last, Entry { value: Stored::Text(name), ttl: post.persistent[last].ttl })
        &&& refreshed(self.persistent.get(counter), post.persistent[counter].ttl, self.max_ttl)
        &&& refreshed(self.persistent.get(last), post.persistent[last].ttl, self.max_ttl)
    }
}

} // verus!
