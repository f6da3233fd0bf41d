//! The operations of the greeting registry.
use crate::error::Error;
use crate::host;
use crate::host::{in_contract, Entry, Stored, XDR_LIMIT};
use crate::identity::Identity;
use crate::keys::{lemma_tags, DataKey};
use crate::registry::{
    count_key, last_key, Registry, DEFAULT_LIMIT, TTL_EXTEND_TO, TTL_THRESHOLD,
};
use crate::text::lemma_xdr_len_bounds;
use soroban_sdk::Env;
use vstd::prelude::*;

verus! {

/// The greeting registry of the contract that the host is executing.
///
/// The registry holds the handle to the host and nothing else: its records
/// live in the contract's storage. Its view is those records. `new` hands out
/// a registry only while a contract is executing, and every operation keeps it
/// so: that is what `executing` says, and what each operation asks.
pub struct HelloContract {
    env: Env,
}

impl View for HelloContract {
    type V = Registry;

    closed spec fn view(&self) -> Registry {
        Registry::of(self.env)
    }
}

impl HelloContract {
    /// Whether the host is executing the contract whose registry this is.
    pub closed spec fn executing(&self) -> bool {
        in_contract(self.env)
    }

    /// The registry of the contract that `env` is executing; `None` if it is
    /// executing none.
    ///
    /// `env` is a handle to a host that other handles may share. What the
    /// operations promise holds while the contract goes on executing and
    /// nothing but this registry writes to its storage: a registry is meant to
    /// serve one invocation and to be dropped with it.
    pub fn new(env: Env) -> (registry: Option<HelloContract>)
        ensures
            registry is Some <==> in_contract(env),
            registry matches Some(found) ==> found.executing() && found@ == Registry::of(env),
    {
        if host::is_in_contract(&env) {
            Some(HelloContract { env })
        } else {
            None
        }
    }

    /// Records `admin` as the administrator, a count of 0 and the default
    /// character limit, and extends the time to live of instance storage.
    /// Refused with `NoInicializado`, and without effect, once an
    /// administrator record exists.
    pub fn initialize(&mut self, admin: &Identity) -> (r: Result<(), Error>)
        requires
            old(self).executing(),
        ensures
            final(self).executing(),
            r == old(self)@.initialize_result(),
            final(self)@ == old(self)@.after_initialize(admin@),
    {
        if host::instance_has(&self.env, DataKey::Admin.tag()) {
            return Err(Error::NoInicializado);
        }
        host::instance_set_text(&mut self.env, DataKey::Admin.tag(), admin.as_str());
        host::instance_set_u32(&mut self.env, DataKey::ContadorSaludos.tag(), 0);
        host::instance_set_u32(&mut self.env, DataKey::LimiteCaracteres.tag(), DEFAULT_LIMIT);
        host::instance_extend_ttl(&mut self.env, TTL_THRESHOLD, TTL_EXTEND_TO);
        Ok(())
    }

    /// Whether `caller` is the recorded administrator: `NoInicializado` where
    /// none is recorded, `NoAutorizado` where it is someone else.
    fn authorize(&self, caller: &Identity) -> (r: Result<(), Error>)
        requires
            self.executing(),
        ensures
            r == self@.authorize(caller@),
    {
        match host::instance_get_text(&self.env, DataKey::Admin.tag()) {
            None => Err(Error::NoInicializado),
            Some(admin) => {
                if caller.is_named(&admin) {
                    Ok(())
                } else {
                    Err(Error::NoAutorizado)
                }
            },
        }
    }

    /// Sets the character limit to `nuevo_limite` and extends the time to live
    /// of instance storage. Only the administrator may do so; any other call
    /// is refused without effect.
    pub fn set_limit(&mut self, caller: &Identity, nuevo_limite: u32) -> (r: Result<(), Error>)
        requires
            old(self).executing(),
        ensures
            final(self).executing(),
            r == old(self)@.authorize(caller@),
            final(self)@ == old(self)@.after_set_limit(caller@, nuevo_limite),
    {
        match self.authorize(caller) {
            Err(e) => Err(e),
            Ok(()) => {
                host::instance_set_u32(
                    &mut self.env,
                    DataKey::LimiteCaracteres.tag(),
                    nuevo_limite,
                );
                host::instance_extend_ttl(&mut self.env, TTL_THRESHOLD, TTL_EXTEND_TO);
                Ok(())
            },
        }
    }

    /// Why the greeting `nombre` is refused, if it is. The host serializes the
    /// greeting, and the length of that form is held against the limit. A
    /// greeting too long for the host to serialize is not handed to it.
    fn check_greeting(&self, nombre: &str) -> (verdict: Option<Error>)
        requires
            self.executing(),
            self@.can_measure(nombre@),
        ensures
            verdict == self@.greeting_verdict(nombre@),
    {
        if nombre.is_empty() {
            return Some(Error::NombreVacio);
        }
        let limit = self.get_limit();
        if nombre.as_bytes().len() > 33_554_424 {
            return Some(Error::NombreMuyLargo);
        }
        if host::text_xdr_len(&self.env, nombre) > limit {
            Some(Error::NombreMuyLargo)
        } else {
            None
        }
    }

    /// Accepts the greeting `nombre` of `usuario` and answers "Hola", or
    /// refuses it without effect: `NombreVacio` for an empty greeting,
    /// `NombreMuyLargo` for one whose serialized form has more bytes than the
    /// character limit.
    ///
    /// A greeting needs no administrator: it is accepted before `initialize`
    /// as well, under the default limit.
    ///
    /// An accepted greeting raises the count and the user's count by one,
    /// becomes the user's last greeting, and extends the time to live of the
    /// user's two records and of instance storage.
    ///
    /// Neither count can pass `u32::MAX`, and under a limit above `XDR_LIMIT`
    /// the host must be able to serialize the greeting: `try_hello` is for a
    /// caller who does not know the counts and the limit.
    pub fn hello(&mut self, usuario: &Identity, nombre: &str) -> (r: Result<String, Error>)
        requires
            old(self).executing(),
            old(self)@.can_measure(nombre@),
            old(self)@.greeting_verdict(nombre@) is None ==> old(self)@.can_count(usuario@),
        ensures
            final(self).executing(),
            match r {
                Ok(reply) => {
                    &&& old(self)@.greeting_verdict(nombre@) is None
                    &&& reply@ == "Hola"@
                    &&& old(self)@.greeted(usuario@, nombre@, final(self)@)
                },
                Err(e) => {
                    &&& old(self)@.greeting_verdict(nombre@) == Some(e)
                    &&& final(self)@ == old(self)@
                },
            },
    {
        proof {
            lemma_xdr_len_bounds(nombre@);
        }
        if let Some(e) = self.check_greeting(nombre) {
            return Err(e);
        }
        let count = self.get_contador();
        host::instance_set_u32(&mut self.env, DataKey::ContadorSaludos.tag(), count + 1);

        let counter = DataKey::ContadorPorUsuario(usuario.as_str());
        let user_count = self.get_contador_usuario(usuario);
        host::persistent_set_u32(&mut self.env, counter.tag(), counter.user(), user_count + 1);
        host::persistent_extend_ttl(
            &mut self.env,
            counter.tag(),
            counter.user(),
            TTL_THRESHOLD,
            TTL_EXTEND_TO,
        );

        let last = DataKey::UltimoSaludo(usuario.as_str());
        host::persistent_set_text(&mut self.env, last.tag(), last.user(), nombre);
        host::persistent_extend_ttl(
            &mut self.env,
            last.tag(),
            last.user(),
            TTL_THRESHOLD,
            TTL_EXTEND_TO,
        );

        host::instance_extend_ttl(&mut self.env, TTL_THRESHOLD, TTL_EXTEND_TO);
        proof {
            lemma_tags();
            let pre = old(self)@;
            let post = self@;
            let ck = count_key(usuario@);
            let lk = last_key(usuario@);
            assert(ck != lk);
            assert(post.persistent =~= pre.persistent.insert(
                ck,
                Entry {
                    value: Stored::Number((pre.user_count(usuario@) + 1) as u32),
                    ttl: post.persistent[ck].ttl,
                },
            ).insert(lk, Entry { value: Stored::Text(nombre@), ttl: post.persistent[lk].ttl }));
        }
        Ok("Hola".to_owned())
    }

    /// `hello` for a caller who does not know the counts and the limit:
    /// answers `None`, and does nothing, where the host cannot serialize the
    /// greeting and the limit does not decide without it, or where the
    /// greeting would be accepted but one of the two counts stands at
    /// `u32::MAX`; otherwise answers what `hello` answers.
    pub fn try_hello(&mut self, usuario: &Identity, nombre: &str) -> (r: Option<
        Result<String, Error>,
    >)
        requires
            old(self).executing(),
        ensures
            final(self).executing(),
            match r {
                None => {
                    &&& !old(self)@.can_measure(nombre@) || (old(self)@.greeting_verdict(nombre@)
                        is None && !old(self)@.can_count(usuario@))
                    &&& final(self)@ == old(self)@
                },
                Some(Ok(reply)) => {
                    &&& old(self)@.can_measure(nombre@)
                    &&& old(self)@.greeting_verdict(nombre@) is None
                    &&& reply@ == "Hola"@
                    &&& old(self)@.greeted(usuario@, nombre@, final(self)@)
                },
                Some(Err(e)) => {
                    &&& old(self)@.can_measure(nombre@)
                    &&& old(self)@.greeting_verdict(nombre@) == Some(e)
                    &&& final(self)@ == old(self)@
                },
            },
    {
        if nombre.as_bytes().len() > 33_554_424 && self.get_limit() > XDR_LIMIT {
            return None;
        }
        if let Some(e) = self.check_greeting(nombre) {
            return Some(Err(e));
        }
        if self.get_contador() == u32::MAX || self.get_contador_usuario(usuario) == u32::MAX {
            return None;
        }
        Some(self.hello(usuario, nombre))
    }

    /// The number of greetings accepted since the last reset.
    pub fn get_contador(&self) -> (n: u32)
        requires
            self.executing(),
        ensures
            n == self@.greeting_count(),
    {
        match host::instance_get_u32(&self.env, DataKey::ContadorSaludos.tag()) {
            Some(n) => n,
            None => 0,
        }
    }

    /// The greatest length, in bytes of its serialized form, that a greeting
    /// may have.
    pub fn get_limit(&self) -> (n: u32)
        requires
            self.executing(),
        ensures
            n == self@.character_limit(),
    {
        match host::instance_get_u32(&self.env, DataKey::LimiteCaracteres.tag()) {
            Some(n) => n,
            None => DEFAULT_LIMIT,
        }
    }

    /// The number of greetings accepted from `usuario`.
    pub fn get_contador_usuario(&self, usuario: &Identity) -> (n: u32)
        requires
            self.executing(),
        ensures
            n == self@.user_count(usuario@),
    {
        let key = DataKey::ContadorPorUsuario(usuario.as_str());
        match host::persistent_get_u32(&self.env, key.tag(), key.user()) {
            Some(n) => n,
            None => 0,
        }
    }

    /// The last greeting accepted from `usuario`, if there is one.
    pub fn get_ultimo_saludo(&self, usuario: &Identity) -> (saludo: Option<String>)
        requires
            self.executing(),
        ensures
            match saludo {
                Some(text) => self@.last_greeting(usuario@) == Some(text@),
                None => self@.last_greeting(usuario@) is None,
            },
    {
        let key = DataKey::UltimoSaludo(usuario.as_str());
        host::persistent_get_text(&self.env, key.tag(), key.user())
    }

    /// Sets the count of greetings to 0. Only the administrator may do so; any
    /// other call is refused without effect. No time to live is extended.
    pub fn reset_contador(&mut self, caller: &Identity) -> (r: Result<(), Error>)
        requires
            old(self).executing(),
        ensures
            final(self).executing(),
            r == old(self)@.authorize(caller@),
            final(self)@ == old(self)@.after_reset(caller@),
    {
        match self.authorize(caller) {
            Err(e) => Err(e),
            Ok(()) => {
                host::instance_set_u32(&mut self.env, DataKey::ContadorSaludos.tag(), 0);
                Ok(())
            },
        }
    }

    /// Makes `nuevo_admin` the administrator. Only the administrator may do
    /// so; any other call is refused without effect. No time to live is
    /// extended.
    pub fn transfer_admin(&mut self, caller: &Identity, nuevo_admin: &Identity) -> (r: Result<
        (),
        Error,
    >)
        requires
            old(self).executing(),
        ensures
            final(self).executing(),
            r == old(self)@.authorize(caller@),
            final(self)@ == old(self)@.after_transfer(caller@, nuevo_admin@),
    {
        match self.authorize(caller) {
            Err(e) => Err(e),
            Ok(()) => {
                host::instance_set_text(&mut self.env, DataKey::Admin.tag(), nuevo_admin.as_str());
                Ok(())
            },
        }
    }
}

} // verus!
