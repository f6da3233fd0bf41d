//! The keys under which the registry keeps its records.
use crate::host::is_symbol;
use vstd::prelude::*;

verus! {

/// The key of a record of the registry.
///
/// The first three records exist once and live in instance storage; the last
/// two exist once per user and live in persistent storage.
#[derive(Clone, Copy, Debug)]
pub enum DataKey<'a> {
    /// The administrator's identity.
    Admin,
    /// The number of greetings accepted since the last reset.
    ContadorSaludos,
    /// The greatest length that the serialized form of a greeting may have.
    LimiteCaracteres,
    /// The last greeting accepted from a user.
    UltimoSaludo(&'a str),
    /// The number of greetings accepted from a user.
    ContadorPorUsuario(&'a str),
}

impl<'a> DataKey<'a> {
    /// The symbol that names the kind of record.
    pub open spec fn spec_tag(self) -> Seq<char> {
        match self {
            DataKey::Admin => "Admin"@,
            DataKey::ContadorSaludos => "ContadorSaludos"@,
            DataKey::LimiteCaracteres => "LimiteCaracteres"@,
            DataKey::UltimoSaludo(_) => "UltimoSaludo"@,
            DataKey::ContadorPorUsuario(_) => "ContadorPorUsuario"@,
        }
    }

    /// The user whose record this is; empty for a record that exists once.
    pub open spec fn spec_user(self) -> Seq<char> {
        match self {
            DataKey::UltimoSaludo(user) => user@,
            DataKey::ContadorPorUsuario(user) => user@,
            _ => Seq::empty(),
        }
    }

    /// The symbol that names the kind of record. The host accepts it as a
    /// symbol.
    pub fn tag(&self) -> (tag: &'static str)
        ensures
            tag@ == self.spec_tag(),
            is_symbol(tag@),
    {
        proof {
            lemma_tags();
        }
        match self {
            DataKey::Admin => "Admin",
            DataKey::ContadorSaludos => "ContadorSaludos",
            DataKey::LimiteCaracteres => "LimiteCaracteres",
            DataKey::UltimoSaludo(_) => "UltimoSaludo",
            DataKey::ContadorPorUsuario(_) => "ContadorPorUsuario",
        }
    }

    /// The user whose record this is; empty for a record that exists once.
    pub fn user(&self) -> (user: &'a str)
        ensures
            user@ == self.spec_user(),
    {
        match self {
            DataKey::UltimoSaludo(user) => user,
            DataKey::ContadorPorUsuario(user) => user,
            _ => {
                proof {
                    reveal_strlit("");
                }
                ""
            },
        }
    }
}

/// The five tags are symbols, and no two of them are the same: they differ in
/// length.
pub proof fn lemma_tags()
    ensures
        is_symbol("Admin"@),
        is_symbol("ContadorSaludos"@),
        is_symbol("LimiteCaracteres"@),
        is_symbol("UltimoSaludo"@),
        is_symbol("ContadorPorUsuario"@),
        "Admin"@.len() == 5,
        "ContadorSaludos"@.len() == 15,
        "LimiteCaracteres"@.len() == 16,
        "UltimoSaludo"@.len() == 12,
        "ContadorPorUsuario"@.len() == 18,
{
    reveal_strlit("Admin");
    reveal_strlit("ContadorSaludos");
    reveal_strlit("LimiteCaracteres");
    reveal_strlit("UltimoSaludo");
    reveal_strlit("ContadorPorUsuario");
}

} // verus!
