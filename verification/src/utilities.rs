//! The sender and the recipients of an e-mail, checked and parsed.
use vstd::prelude::*;

use lettre::Address;
use lettre::address::AddressError;
use lettre::message::Mailbox;

use crate::config_info::EmailSender;
use crate::error::{MissignFieldError, TableProcessError};
use crate::models::Email;

verus! {

/// A mailbox as plain values: the display name, if there is one, and the
/// address.
pub struct Caixa {
    pub nome: Option<String>,
    pub endereco: String,
}

/// The text of an optional field, as a value.
pub open spec fn texto_opcional(o: Option<String>) -> Option<Seq<char>> {
    match o {
        Some(s) => Some(s@),
        None => None,
    }
}

/// What the mail library's mailbox parser reads from `texto` (a
/// `Name <user@domain>` form): the display name and the address text, or
/// `None` when it refuses the text.
pub uninterp spec fn mailbox_analisado(texto: Seq<char>) -> Option<(Option<Seq<char>>, Seq<char>)>;

/// Whether the mail library's address parser accepts `texto`.
pub uninterp spec fn endereco_aceito(texto: Seq<char>) -> bool;

/// Calls lettre's `<Mailbox as FromStr>::from_str` and hands over the
/// mailbox's display name and the text of its address (`Address`'s
/// `Display`). The contract names what the parser reads, which depends on
/// the text alone.
#[verifier::external_body]
fn analisa_mailbox(texto: &str) -> (r: Result<Caixa, AddressError>)
    ensures
        r is Ok <==> mailbox_analisado(texto@) is Some,
        r matches Ok(c) ==> mailbox_analisado(texto@) == Some((texto_opcional(c.nome), c.endereco@)),
{
    match texto.parse::<Mailbox>() {
        Ok(m) => Ok(Caixa { nome: m.name, endereco: m.email.to_string() }),
        Err(e) => Err(e),
    }
}

/// Calls lettre's `<Address as FromStr>::from_str` and hands over the text
/// of the address (its `Display`), which is the text it was given. Whether
/// the text is accepted is named; it depends on the text alone.
#[verifier::external_body]
fn analisa_endereco(texto: &str) -> (r: Result<String, AddressError>)
    ensures
        r is Ok <==> endereco_aceito(texto@),
        r matches Ok(s) ==> s@ == texto@,
{
    match texto.parse::<Address>() {
        Ok(a) => Ok(a.to_string()),
        Err(e) => Err(e),
    }
}

/// The sender as the mail header writes it: `Name <address>`.
pub open spec fn remetente_texto(nome: Seq<char>, email: Seq<char>) -> Seq<char> {
    nome + " <"@ + email + ">"@
}

/// A recipient whose address is present and accepted.
pub open spec fn destino_ok(d: Email) -> bool {
    d.email_adrs matches Some(a) && endereco_aceito(a@)
}

/// Every recipient before position `i` has an accepted address.
pub open spec fn destinos_ok_ate(destinos: Seq<Email>, i: int) -> bool {
    forall|j: int| 0 <= j < i ==> #[trigger] destino_ok(destinos[j])
}

/// The mailbox of a recipient: its display name and its address.
pub open spec fn caixa_de(c: Caixa, d: Email) -> bool {
    &&& texto_opcional(c.nome) == texto_opcional(d.email_name)
    &&& d.email_adrs matches Some(a) && c.endereco@ == a@
}

/// When every recipient before `i` is fine and the one at `i` is not, `i`
/// is the first recipient that is not fine.
proof fn lema_primeiro_invalido(destinos: Seq<Email>, i: int)
    requires
        0 <= i < destinos.len(),
        destinos_ok_ate(destinos, i),
        !destino_ok(destinos[i]),
    ensures
        forall|k: int|
            0 <= k < destinos.len() && destinos_ok_ate(destinos, k) && !destino_ok(
                #[trigger] destinos[k],
            ) ==> k == i,
{
    assert forall|k: int|
        0 <= k < destinos.len() && destinos_ok_ate(destinos, k) && !destino_ok(
            #[trigger] destinos[k],
        ) implies k == i by {
        if k < i {
            assert(destino_ok(destinos[k]));
        } else if k > i {
            assert(destino_ok(destinos[i]));
        }
    }
}

/// The sender and the recipients of an e-mail. The sender's mailbox is
/// parsed first from `Name <address>`; then, in their order, each recipient
/// needs an address (`MissingData` naming `email_adrs`) that parses
/// (`EmailParseError`). The recipients' mailboxes carry their display names
/// and addresses, in their order.
pub fn prepara_envio(sender: &EmailSender, destinos: &Vec<Email>) -> (r: Result<
    (Caixa, Vec<Caixa>),
    TableProcessError,
>)
    ensures
        r is Ok <==> mailbox_analisado(remetente_texto(sender.nome@, sender.email@)) is Some
            && forall|i: int| 0 <= i < destinos@.len() ==> #[trigger] destino_ok(destinos@[i]),
        mailbox_analisado(remetente_texto(sender.nome@, sender.email@)) is None ==> r matches Err(
            TableProcessError::EmailParseError(_),
        ),
        forall|i: int|
            0 <= i < destinos@.len() && mailbox_analisado(
                remetente_texto(sender.nome@, sender.email@),
            ) is Some && destinos_ok_ate(destinos@, i) && #[trigger] destinos@[i].email_adrs is None
                ==> (r matches Err(TableProcessError::MissingData(e)) && e.0@ == "email_adrs"@),
        forall|i: int|
            0 <= i < destinos@.len() && mailbox_analisado(
                remetente_texto(sender.nome@, sender.email@),
            ) is Some && destinos_ok_ate(destinos@, i) && #[trigger] destinos@[i].email_adrs is Some
                && !endereco_aceito(destinos@[i].email_adrs.unwrap()@) ==> (r matches Err(
                TableProcessError::EmailParseError(_),
            )),
        r matches Ok((de, para)) ==> {
            &&& mailbox_analisado(remetente_texto(sender.nome@, sender.email@)) == Some(
                (texto_opcional(de.nome), de.endereco@),
            )
            &&& para@.len() == destinos@.len()
            &&& forall|i: int| 0 <= i < destinos@.len() ==> caixa_de(#[trigger] para@[i], destinos@[i])
        },
{
    let texto = sender.nome.clone().concat(" <").concat(sender.email.as_str()).concat(">");
    proof {
        reveal_strlit(" <");
        reveal_strlit(">");
    }
    assert(texto@ =~= remetente_texto(sender.nome@, sender.email@));
    let remetente = match analisa_mailbox(texto.as_str()) {
        Err(e) => {
            return Err(TableProcessError::EmailParseError(e));
        },
        Ok(m) => m,
    };
    let mut para: Vec<Caixa> = Vec::new();
    let mut i: usize = 0;
    while i < destinos.len()
        invariant
            mailbox_analisado(remetente_texto(sender.nome@, sender.email@)) is Some,
            i <= destinos@.len(),
            para@.len() == i,
            forall|j: int| 0 <= j < i ==> #[trigger] destino_ok(destinos@[j]),
            forall|j: int| 0 <= j < i ==> caixa_de(#[trigger] para@[j], destinos@[j]),
        decreases destinos@.len() - i,
    {
        let destino = &destinos[i];
        let endereco = match destino.email_adrs.as_ref() {
            None => {
                proof {
                    assert(!destino_ok(destinos@[i as int]));
                    lema_primeiro_invalido(destinos@, i as int);
                }
                return Err(TableProcessError::MissingData(MissignFieldError::new("email_adrs")));
            },
            Some(a) => match analisa_endereco(a.as_str()) {
                Err(e) => {
                    proof {
                        assert(!destino_ok(destinos@[i as int]));
                    lema_primeiro_invalido(destinos@, i as int);
                    }
                    return Err(TableProcessError::EmailParseError(e));
                },
                Ok(end) => end,
            },
        };
        let nome = match destino.email_name.as_ref() {
            None => None,
            Some(n) => Some(n.clone()),
        };
        para.push(Caixa { nome, endereco });
        i = i + 1;
    }
    assert forall|k: int| 0 <= k < destinos@.len() implies destino_ok(#[trigger] destinos@[k]) by {}
    Ok((remetente, para))
}

} // verus!
