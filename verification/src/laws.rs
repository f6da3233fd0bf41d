//! What holds of the registry whatever its records are: the laws that relate
//! its operations, proved from the definitions in `registry`.
use crate::error::Error;
use crate::keys::lemma_tags;
use crate::registry::{refreshed_ttl, Registry, DEFAULT_LIMIT, TTL_EXTEND_TO};
use crate::text::{lemma_xdr_len_bounds, xdr_len};
use vstd::prelude::*;

verus! {

/// While no administrator record exists, each of the administrator's
/// operations (`set_limit`, `reset_contador`, `transfer_admin`) answers
/// `NoInicializado` to every caller and changes nothing.
pub proof fn law_uninitialized_refuses(
    registry: Registry,
    caller: Seq<char>,
    limit: u32,
    new_admin: Seq<char>,
)
    requires
        !registry.initialized(),
    ensures
        registry.authorize(caller) == Err::<(), Error>(Error::NoInicializado),
        registry.after_set_limit(caller, limit) == registry,
        registry.after_reset(caller) == registry,
        registry.after_transfer(caller, new_admin) == registry,
{
}

/// After `initialize`, whether it was accepted or refused, a further
/// `initialize` is refused with `NoInicializado` and changes nothing: what the
/// first accepted call recorded stays.
pub proof fn law_initialize_once(registry: Registry, first: Seq<char>, second: Seq<char>)
    ensures
        registry.after_initialize(first).initialize_result() == Err::<(), Error>(
            Error::NoInicializado,
        ),
        registry.after_initialize(first).after_initialize(second) == registry.after_initialize(
            first,
        ),
        registry.initialize_result() is Ok ==> registry.after_initialize(first).admin() == Some(
            first,
        ),
        registry.initialize_result() is Ok ==> registry.after_initialize(first).greeting_count()
            == 0,
        registry.initialize_result() is Ok ==> registry.after_initialize(first).character_limit()
            == DEFAULT_LIMIT,
{
    lemma_tags();
}

/// Once an administrator record exists, no operation removes it.
pub proof fn law_initialized_for_good(
    registry: Registry,
    caller: Seq<char>,
    admin: Seq<char>,
    limit: u32,
    user: Seq<char>,
    name: Seq<char>,
    greeted: Registry,
)
    requires
        registry.initialized(),
        registry.greeted(user, name, greeted),
    ensures
        registry.after_initialize(admin).initialized(),
        registry.after_set_limit(caller, limit).initialized(),
        registry.after_reset(caller).initialized(),
        registry.after_transfer(caller, admin).initialized(),
        greeted.initialized(),
{
}

/// An empty greeting is refused with `NombreVacio`, whatever the limit.
/// (`hello` changes nothing when it refuses.)
pub proof fn law_empty_greeting(registry: Registry, name: Seq<char>)
    requires
        name.len() == 0,
    ensures
        registry.greeting_verdict(name) == Some(Error::NombreVacio),
{
}

/// A greeting whose serialized form has more bytes than the limit is refused
/// with `NombreMuyLargo`; one that is not empty and whose serialized form has
/// exactly as many bytes as the limit is accepted. The limit is 32 where none
/// is recorded. The serialized form of a greeting that is not empty has at
/// least twelve bytes, so under a limit below twelve every greeting is
/// refused. (`hello` changes nothing when it refuses.)
pub proof fn law_greeting_length(registry: Registry, name: Seq<char>)
    ensures
        xdr_len(name) > registry.character_limit() ==> registry.greeting_verdict(name) is Some,
        name.len() > 0 && xdr_len(name) > registry.character_limit()
            ==> registry.greeting_verdict(name) == Some(Error::NombreMuyLargo),
        name.len() > 0 && xdr_len(name) <= registry.character_limit()
            ==> registry.greeting_verdict(name) is None,
        !registry.instance.dom().contains("LimiteCaracteres"@) ==> registry.character_limit()
            == 32,
        registry.character_limit() < 12 ==> registry.greeting_verdict(name) is Some,
{
    lemma_xdr_len_bounds(name);
}

/// A greeting needs no administrator. Before `initialize` has recorded
/// anything, a greeting that is not empty is accepted if its serialized form
/// has at most 32 bytes, and refused if it has more; and an accepted greeting
/// leaves the registry without an administrator.
pub proof fn law_greeting_before_initialize(
    registry: Registry,
    user: Seq<char>,
    name: Seq<char>,
    greeted: Registry,
)
    requires
        !registry.initialized(),
        !registry.instance.dom().contains("LimiteCaracteres"@),
        name.len() > 0,
    ensures
        registry.greeting_verdict(name) is None <==> xdr_len(name) <= 32,
        registry.can_measure(name),
        registry.greeted(user, name, greeted) ==> !greeted.initialized()
            && greeted.greeting_count() == registry.greeting_count() + 1,
{
    lemma_tags();
}

/// An accepted greeting raises the count by exactly one and the count of its
/// user by exactly one, and becomes that user's last greeting; the count and
/// the last greeting of every other user stay as they were, and so do the
/// administrator and the limit.
pub proof fn law_greeting_counts(
    registry: Registry,
    user: Seq<char>,
    name: Seq<char>,
    greeted: Registry,
    other: Seq<char>,
)
    requires
        registry.greeted(user, name, greeted),
    ensures
        greeted.greeting_count() == registry.greeting_count() + 1,
        greeted.user_count(user) == registry.user_count(user) + 1,
        greeted.last_greeting(user) == Some(name),
        other != user ==> greeted.user_count(other) == registry.user_count(other),
        other != user ==> greeted.last_greeting(other) == registry.last_greeting(other),
        greeted.admin() == registry.admin(),
        greeted.character_limit() == registry.character_limit(),
{
    lemma_tags();
}

/// `reset_contador` by anyone but the administrator of an initialized
/// registry is refused with `NoAutorizado` and changes nothing; by the
/// administrator it sets the count to 0 and leaves every user's count and
/// last greeting, the administrator and the limit as they were.
pub proof fn law_reset(registry: Registry, caller: Seq<char>, user: Seq<char>)
    ensures
        registry.admin() is Some && registry.admin() != Some(caller) ==> {
            &&& registry.authorize(caller) == Err::<(), Error>(Error::NoAutorizado)
            &&& registry.after_reset(caller) == registry
        },
        registry.admin() == Some(caller) ==> {
            &&& registry.authorize(caller) is Ok
            &&& registry.after_reset(caller).greeting_count() == 0
            &&& registry.after_reset(caller).user_count(user) == registry.user_count(user)
            &&& registry.after_reset(caller).last_greeting(user) == registry.last_greeting(user)
            &&& registry.after_reset(caller).admin() == registry.admin()
            &&& registry.after_reset(caller).character_limit() == registry.character_limit()
        },
{
    lemma_tags();
}

/// `transfer_admin` by anyone but the administrator of an initialized
/// registry is refused with `NoAutorizado` and changes nothing. After a
/// transfer by the administrator, the new administrator is the only identity
/// that the administrator's operations accept.
pub proof fn law_transfer(
    registry: Registry,
    caller: Seq<char>,
    new_admin: Seq<char>,
    later: Seq<char>,
)
    ensures
        registry.admin() is Some && registry.admin() != Some(caller) ==> {
            &&& registry.authorize(caller) == Err::<(), Error>(Error::NoAutorizado)
            &&& registry.after_transfer(caller, new_admin) == registry
        },
        registry.admin() == Some(caller) ==> {
            &&& registry.authorize(caller) is Ok
            &&& registry.after_transfer(caller, new_admin).admin() == Some(new_admin)
            &&& registry.after_transfer(caller, new_admin).authorize(later) is Ok <==> later
                == new_admin
            &&& later != new_admin ==> registry.after_transfer(caller, new_admin).authorize(later)
                == Err::<(), Error>(Error::NoAutorizado)
            &&& registry.after_transfer(caller, new_admin).greeting_count()
                == registry.greeting_count()
            &&& registry.after_transfer(caller, new_admin).character_limit()
                == registry.character_limit()
        },
{
    lemma_tags();
}

/// `set_limit` by anyone but the administrator of an initialized registry is
/// refused with `NoAutorizado` and changes nothing; by the administrator it
/// makes `limit` the character limit and leaves the count and the
/// administrator as they were.
pub proof fn law_set_limit(registry: Registry, caller: Seq<char>, limit: u32)
    ensures
        registry.admin() is Some && registry.admin() != Some(caller) ==> {
            &&& registry.authorize(caller) == Err::<(), Error>(Error::NoAutorizado)
            &&& registry.after_set_limit(caller, limit) == registry
        },
        registry.admin() == Some(caller) ==> {
            &&& registry.authorize(caller) is Ok
            &&& registry.after_set_limit(caller, limit).character_limit() == limit
            &&& registry.after_set_limit(caller, limit).greeting_count()
                == registry.greeting_count()
            &&& registry.after_set_limit(caller, limit).admin() == registry.admin()
        },
{
    lemma_tags();
}

/// Extending a time to live never shortens it, and leaves at least the
/// registry's target of 100 ledgers, or the network's maximum if that is less.
/// `initialize`, `set_limit` and an accepted greeting extend the time to live
/// of instance storage; `reset_contador` and `transfer_admin` leave it as it
/// is.
pub proof fn law_time_to_live(
    registry: Registry,
    caller: Seq<char>,
    admin: Seq<char>,
    limit: u32,
    user: Seq<char>,
    name: Seq<char>,
    greeted: Registry,
)
    requires
        registry.greeted(user, name, greeted),
    ensures
        refreshed_ttl(registry.instance_ttl, registry.max_ttl) >= registry.instance_ttl,
        refreshed_ttl(registry.instance_ttl, registry.max_ttl) >= TTL_EXTEND_TO
            || refreshed_ttl(registry.instance_ttl, registry.max_ttl) >= registry.max_ttl,
        registry.initialize_result() is Ok ==> registry.after_initialize(admin).instance_ttl
            == refreshed_ttl(registry.instance_ttl, registry.max_ttl),
        registry.authorize(caller) is Ok ==> registry.after_set_limit(caller, limit).instance_ttl
            == refreshed_ttl(registry.instance_ttl, registry.max_ttl),
        greeted.instance_ttl == refreshed_ttl(registry.instance_ttl, registry.max_ttl),
        registry.after_reset(caller).instance_ttl == registry.instance_ttl,
        registry.after_transfer(caller, admin).instance_ttl == registry.instance_ttl,
{
}

} // verus!
