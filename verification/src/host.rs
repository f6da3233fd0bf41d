//! The trusted boundary to the Soroban host.
//!
//! The registry keeps its records in the storage that the host provides to the
//! contract that is executing. Verus cannot look into the host, so this module
//! gives the storage a mathematical model and states, for each host call that
//! the registry makes, what the call does to that model. These statements are
//! believed, not proved; everything else in the crate is proved from them.
//!
//! The host hands out its storage through a shared handle. A function here
//! that changes the storage takes the environment by `&mut` all the same: that
//! is how the change shows in its contract. The contracts speak of one handle
//! during one invocation; they say nothing of what a second handle to the same
//! host does in between, nor of what the ledger does between invocations.
//!
//! The storage is that of the contract that the host is executing, so every
//! function here that reaches it asks that one is: `in_contract`. Beyond that,
//! the host aborts an invocation that has used up its budget of memory and
//! computation, as it does in any host call; that is not repeated below. The
//! bounds on lengths that the functions here ask for are those of the host's
//! data formats. They say what the host can hold at all, not what the budget of
//! an invocation lets it hold, which is far less.
use crate::text::{byte_len, xdr_len};
use soroban_sdk::xdr::ToXdr;
use soroban_sdk::{Env, Symbol, TryFromVal, Val};
use vstd::prelude::*;

verus! {

#[verifier::external_type_specification]
#[verifier::external_body]
pub struct ExEnv(soroban_sdk::Env);

/// What a storage entry holds, as far as the registry tells values apart.
pub ghost enum Stored {
    /// An unsigned 32-bit number.
    Number(u32),
    /// A host string whose bytes are the UTF-8 encoding of this text.
    Text(Seq<char>),
    /// Any other value.
    Other,
}

/// An entry of persistent storage: its value, and the number of ledgers for
/// which the host still keeps it.
pub ghost struct Entry {
    pub value: Stored,
    pub ttl: nat,
}

/// Whether the host is executing a contract, whose storage is then the one
/// that the names below speak of.
pub uninterp spec fn in_contract(env: Env) -> bool;

/// The instance storage of the executing contract: for each symbol `tag`, what
/// is stored under the key that is the one-element vector `[tag]`.
pub uninterp spec fn instance_entries(env: Env) -> Map<Seq<char>, Stored>;

/// The persistent storage of the executing contract: for each symbol `tag` and
/// text `id`, what is stored under the key that is the vector `[tag, id]`.
pub uninterp spec fn persistent_entries(env: Env) -> Map<(Seq<char>, Seq<char>), Entry>;

/// The number of ledgers for which the host still keeps the contract instance,
/// and with it the instance storage.
pub uninterp spec fn instance_ttl(env: Env) -> nat;

/// The longest time to live that the network grants an entry.
pub uninterp spec fn max_ttl(env: Env) -> nat;

/// The greatest number of bytes that the host serializes a value into: 32 MiB.
pub const XDR_LIMIT: u32 = 33_554_432;

/// Whether `c` may occur in a symbol.
pub open spec fn is_symbol_char(c: char) -> bool {
    ||| 'a' <= c <= 'z'
    ||| 'A' <= c <= 'Z'
    ||| '0' <= c <= '9'
    ||| c == '_'
}

/// Whether the host accepts `s` as a symbol: at most 32 characters, each a
/// letter, a digit or an underscore.
pub open spec fn is_symbol(s: Seq<char>) -> bool {
    &&& s.len() <= 32
    &&& forall|i: int| 0 <= i < s.len() ==> is_symbol_char(#[trigger] s[i])
}

/// The number that a stored value is, if it is one.
pub open spec fn number_of(value: Option<Stored>) -> Option<u32> {
    match value {
        Some(Stored::Number(n)) => Some(n),
        _ => None,
    }
}

/// The text that a stored value is, if it is one.
pub open spec fn text_of(value: Option<Stored>) -> Option<Seq<char>> {
    match value {
        Some(Stored::Text(t)) => Some(t),
        _ => None,
    }
}

/// The value of a persistent entry, if the entry is there.
pub open spec fn value_of(entry: Option<Entry>) -> Option<Stored> {
    match entry {
        Some(e) => Some(e.value),
        None => None,
    }
}

/// What writing `value` under `key` makes of persistent storage: the entry
/// holds `value`; one that was there before keeps its time to live, a new one
/// has the time to live that the host gave it; no other entry changes.
pub open spec fn written(
    before: Map<(Seq<char>, Seq<char>), Entry>,
    key: (Seq<char>, Seq<char>),
    value: Stored,
    after: Map<(Seq<char>, Seq<char>), Entry>,
) -> bool {
    &&& after == before.insert(key, Entry { value, ttl: after[key].ttl })
    &&& before.dom().contains(key) ==> after[key].ttl == before[key].ttl
}

/// What a request to extend a time to live makes of `ttl`: an entry that has
/// more than `threshold` ledgers left is not touched; any other is extended to
/// `extend_to` ledgers, or to the network's maximum if that is less, and never
/// shortened.
pub open spec fn extended_ttl(ttl: nat, threshold: nat, extend_to: nat, max: nat) -> nat {
    let target = if extend_to <= max { extend_to } else { max };
    if ttl <= threshold && ttl < target {
        target
    } else {
        ttl
    }
}

/// `Env::in_contract`: whether the host is executing a contract. The SDK
/// offers this question among its test utilities only, which is why the crate
/// asks for them.
#[verifier::external_body]
pub(crate) fn is_in_contract(env: &Env) -> (yes: bool)
    ensures
        yes == in_contract(*env),
{
    env.in_contract()
}

/// `Instance::has`, under the key `[tag]`: whether instance storage has an
/// entry there, whatever it holds.
#[verifier::external_body]
pub(crate) fn instance_has(env: &Env, tag: &str) -> (found: bool)
    requires
        in_contract(*env),
        is_symbol(tag@),
    ensures
        found == instance_entries(*env).dom().contains(tag@),
{
    env.storage().instance().has(&(Symbol::new(env, tag),))
}

/// `Instance::get`, under the key `[tag]`, for a number: the entry's value if
/// it is an unsigned 32-bit number. The value is fetched untyped and then
/// converted, so an entry of another type is reported as `None` and does not
/// abort.
#[verifier::external_body]
pub(crate) fn instance_get_u32(env: &Env, tag: &str) -> (found: Option<u32>)
    requires
        in_contract(*env),
        is_symbol(tag@),
    ensures
        found == number_of(instance_entries(*env).get(tag@)),
{
    match env.storage().instance().get::<_, Val>(&(Symbol::new(env, tag),)) {
        Some(val) => u32::try_from_val(env, &val).ok(),
        None => None,
    }
}

/// `Instance::get`, under the key `[tag]`, for a text: the entry's value if it
/// is a host string that holds valid UTF-8. The value is fetched untyped and
/// then converted, so any other entry is reported as `None` and does not abort.
#[verifier::external_body]
pub(crate) fn instance_get_text(env: &Env, tag: &str) -> (found: Option<String>)
    requires
        in_contract(*env),
        is_symbol(tag@),
    ensures
        match found {
            Some(text) => text_of(instance_entries(*env).get(tag@)) == Some(text@),
            None => text_of(instance_entries(*env).get(tag@)) is None,
        },
{
    let val = env.storage().instance().get::<_, Val>(&(Symbol::new(env, tag),))?;
    let text = soroban_sdk::String::try_from_val(env, &val).ok()?;
    let mut bytes = vec![0u8; text.len() as usize];
    text.copy_into_slice(&mut bytes);
    String::from_utf8(bytes).ok()
}

/// `Instance::set`, under the key `[tag]`, with a number: the entry is created
/// or overwritten, and nothing else changes.
#[verifier::external_body]
pub(crate) fn instance_set_u32(env: &mut Env, tag: &str, value: u32)
    requires
        in_contract(*old(env)),
        is_symbol(tag@),
    ensures
        in_contract(*final(env)),
        instance_entries(*final(env)) == instance_entries(*old(env)).insert(
            tag@,
            Stored::Number(value),
        ),
        persistent_entries(*final(env)) == persistent_entries(*old(env)),
        instance_ttl(*final(env)) == instance_ttl(*old(env)),
        max_ttl(*final(env)) == max_ttl(*old(env)),
{
    env.storage().instance().set(&(Symbol::new(env, tag),), &value)
}

/// `Instance::set`, under the key `[tag]`, with a text, which is handed to the
/// host as a string of its UTF-8 bytes: the entry is created or overwritten,
/// and nothing else changes. A host string counts its bytes in 32 bits, so it
/// cannot hold more than `u32::MAX` of them.
#[verifier::external_body]
pub(crate) fn instance_set_text(env: &mut Env, tag: &str, value: &str)
    requires
        in_contract(*old(env)),
        is_symbol(tag@),
        byte_len(value@) <= u32::MAX,
    ensures
        in_contract(*final(env)),
        instance_entries(*final(env)) == instance_entries(*old(env)).insert(
            tag@,
            Stored::Text(value@),
        ),
        persistent_entries(*final(env)) == persistent_entries(*old(env)),
        instance_ttl(*final(env)) == instance_ttl(*old(env)),
        max_ttl(*final(env)) == max_ttl(*old(env)),
{
    env.storage().instance().set(&(Symbol::new(env, tag),), &soroban_sdk::String::from_str(env, value))
}

/// `Instance::extend_ttl`: the time to live of the contract instance becomes
/// what `extended_ttl` says, and no entry changes. The host refuses a
/// threshold above `extend_to`.
#[verifier::external_body]
pub(crate) fn instance_extend_ttl(env: &mut Env, threshold: u32, extend_to: u32)
    requires
        in_contract(*old(env)),
        threshold <= extend_to,
    ensures
        in_contract(*final(env)),
        instance_ttl(*final(env)) == extended_ttl(
            instance_ttl(*old(env)),
            threshold as nat,
            extend_to as nat,
            max_ttl(*old(env)),
        ),
        instance_entries(*final(env)) == instance_entries(*old(env)),
        persistent_entries(*final(env)) == persistent_entries(*old(env)),
        max_ttl(*final(env)) == max_ttl(*old(env)),
{
    env.storage().instance().extend_ttl(threshold, extend_to)
}

/// `Persistent::get`, under the key `[tag, id]`, for a number: the entry's
/// value if it is an unsigned 32-bit number. The value is fetched untyped and
/// then converted, so an entry of another type is reported as `None` and does
/// not abort.
#[verifier::external_body]
pub(crate) fn persistent_get_u32(env: &Env, tag: &str, id: &str) -> (found: Option<u32>)
    requires
        in_contract(*env),
        is_symbol(tag@),
        byte_len(id@) <= u32::MAX,
    ensures
        found == number_of(value_of(persistent_entries(*env).get((tag@, id@)))),
{
    let key = (Symbol::new(env, tag), soroban_sdk::String::from_str(env, id));
    match env.storage().persistent().get::<_, Val>(&key) {
        Some(val) => u32::try_from_val(env, &val).ok(),
        None => None,
    }
}

/// `Persistent::get`, under the key `[tag, id]`, for a text: the entry's value
/// if it is a host string that holds valid UTF-8. The value is fetched untyped
/// and then converted, so any other entry is reported as `None` and does not
/// abort.
#[verifier::external_body]
pub(crate) fn persistent_get_text(env: &Env, tag: &str, id: &str) -> (found: Option<String>)
    requires
        in_contract(*env),
        is_symbol(tag@),
        byte_len(id@) <= u32::MAX,
    ensures
        match found {
            Some(text) => text_of(value_of(persistent_entries(*env).get((tag@, id@)))) == Some(
                text@,
            ),
            None => text_of(value_of(persistent_entries(*env).get((tag@, id@)))) is None,
        },
{
    let key = (Symbol::new(env, tag), soroban_sdk::String::from_str(env, id));
    let val = env.storage().persistent().get::<_, Val>(&key)?;
    let text = soroban_sdk::String::try_from_val(env, &val).ok()?;
    let mut bytes = vec![0u8; text.len() as usize];
    text.copy_into_slice(&mut bytes);
    String::from_utf8(bytes).ok()
}

/// `Persistent::set`, under the key `[tag, id]`, with a number: persistent
/// storage becomes what `written` says, and nothing else changes.
#[verifier::external_body]
pub(crate) fn persistent_set_u32(env: &mut Env, tag: &str, id: &str, value: u32)
    requires
        in_contract(*old(env)),
        is_symbol(tag@),
        byte_len(id@) <= u32::MAX,
    ensures
        in_contract(*final(env)),
        written(
            persistent_entries(*old(env)),
            (tag@, id@),
            Stored::Number(value),
            persistent_entries(*final(env)),
        ),
        instance_entries(*final(env)) == instance_entries(*old(env)),
        instance_ttl(*final(env)) == instance_ttl(*old(env)),
        max_ttl(*final(env)) == max_ttl(*old(env)),
{
    let key = (Symbol::new(env, tag), soroban_sdk::String::from_str(env, id));
    env.storage().persistent().set(&key, &value)
}

/// `Persistent::set`, under the key `[tag, id]`, with a text, which is handed
/// to the host as a string of its UTF-8 bytes: persistent storage becomes what
/// `written` says, and nothing else changes.
#[verifier::external_body]
pub(crate) fn persistent_set_text(env: &mut Env, tag: &str, id: &str, value: &str)
    requires
        in_contract(*old(env)),
        is_symbol(tag@),
        byte_len(id@) <= u32::MAX,
        byte_len(value@) <= u32::MAX,
    ensures
        in_contract(*final(env)),
        written(
            persistent_entries(*old(env)),
            (tag@, id@),
            Stored::Text(value@),
            persistent_entries(*final(env)),
        ),
        instance_entries(*final(env)) == instance_entries(*old(env)),
        instance_ttl(*final(env)) == instance_ttl(*old(env)),
        max_ttl(*final(env)) == max_ttl(*old(env)),
{
    let key = (Symbol::new(env, tag), soroban_sdk::String::from_str(env, id));
    env.storage().persistent().set(&key, &soroban_sdk::String::from_str(env, value))
}

/// `Persistent::extend_ttl`, under the key `[tag, id]`: the entry keeps its
/// value, its time to live becomes what `extended_ttl` says, and nothing else
/// changes. The host refuses a threshold above `extend_to`, and a key under
/// which nothing is stored.
#[verifier::external_body]
pub(crate) fn persistent_extend_ttl(
    env: &mut Env,
    tag: &str,
    id: &str,
    threshold: u32,
    extend_to: u32,
)
    requires
        in_contract(*old(env)),
        is_symbol(tag@),
        byte_len(id@) <= u32::MAX,
        threshold <= extend_to,
        persistent_entries(*old(env)).dom().contains((tag@, id@)),
    ensures
        in_contract(*final(env)),
        persistent_entries(*final(env)) == persistent_entries(*old(env)).insert(
            (tag@, id@),
            (Entry {
                value: persistent_entries(*old(env))[(tag@, id@)].value,
                ttl: extended_ttl(
                    persistent_entries(*old(env))[(tag@, id@)].ttl,
                    threshold as nat,
                    extend_to as nat,
                    max_ttl(*old(env)),
                ),
            }),
        ),
        instance_entries(*final(env)) == instance_entries(*old(env)),
        instance_ttl(*final(env)) == instance_ttl(*old(env)),
        max_ttl(*final(env)) == max_ttl(*old(env)),
{
    let key = (Symbol::new(env, tag), soroban_sdk::String::from_str(env, id));
    env.storage().persistent().extend_ttl(&key, threshold, extend_to)
}

/// `ToXdr::to_xdr` of the host string made of the UTF-8 bytes of `text`, and
/// `Bytes::len` of what it gives: the number of bytes of the text's serialized
/// form. That form is a tag of four bytes, a length of four bytes, and the
/// bytes of the text, filled up with zeros to a multiple of four. The host
/// refuses to serialize into more than `XDR_LIMIT` bytes.
#[verifier::external_body]
pub(crate) fn text_xdr_len(env: &Env, text: &str) -> (len: u32)
    requires
        xdr_len(text@) <= XDR_LIMIT,
    ensures
        len == xdr_len(text@),
{
    soroban_sdk::String::from_str(env, text).to_xdr(env).len()
}

} // verus!
