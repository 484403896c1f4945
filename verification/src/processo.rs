//! The decisions of a run: which companies are processed, where their
//! databases are, and in which order the occurrences of a company are
//! e-mailed and marked as sent.
use vstd::prelude::*;

use crate::config_info::DbConfig;
use crate::formatacao::{escreve_inteiro, inteiro_texto};
use crate::message_builder::junta;

verus! {

/// How many unsent occurrences are fetched per company and run.
pub const LIMITE_OCORRENCIAS: i64 = 10;

/// How many earlier occurrences of the same equipment an e-mail shows.
pub const LIMITE_EQUIPAMENTOS: i64 = 5;

/// The company names of the registry, with the empty entries left out,
/// in their order.
pub open spec fn empresas_spec(empresas: Seq<Option<String>>) -> Seq<Seq<char>>
    decreases empresas.len(),
{
    if empresas.len() == 0 {
        seq![]
    } else {
        let resto = empresas_spec(empresas.drop_last());
        match empresas.last() {
            Some(e) => resto.push(e@),
            None => resto,
        }
    }
}

/// The companies to process: the registry's names, without the empty ones.
pub fn empresas_validas(empresas: Vec<Option<String>>) -> (r: Vec<String>)
    ensures
        r@.map_values(|e: String| e@) == empresas_spec(empresas@),
{
    let ghost orig = empresas@;
    let mut r: Vec<String> = Vec::new();
    for e in it: empresas.into_iter()
        invariant
            it.seq() == orig,
            r@.map_values(|x: String| x@) == empresas_spec(orig.take(it.index() as int)),
    {
        assert(orig.take(it.index() + 1).drop_last() =~= orig.take(it.index() as int));
        match e {
            Some(nome) => {
                r.push(nome);
            },
            None => {},
        }
        assert(r@.map_values(|x: String| x@) =~= empresas_spec(orig.take(it.index() + 1)));
    }
    assert(orig.take(orig.len() as int) =~= orig);
    r
}

/// The connection URL of the database of the e-mail registry.
pub fn url_email_db(db: &DbConfig) -> (r: String)
    ensures
        r@ == db.url@ + db.email_db@,
{
    db.url.clone().concat(db.email_db.as_str())
}

/// The connection URL of the occurrence database of a company: `SGO_`
/// followed by its name, on the server.
pub fn url_empresa(url: &str, empresa: &str) -> (r: String)
    ensures
        r@ == url@ + "SGO_"@ + empresa@,
{
    String::from_str(url).concat("SGO_").concat(empresa)
}

/// A list of ids as the log writes it: `[7, 9, 4]`.
pub open spec fn lista_ids_texto(ids: Seq<i32>) -> Seq<char> {
    seq!['['] + junta(ids.map_values(|i: i32| inteiro_texto(i as int)), ", "@) + seq![']']
}

/// The log line of the e-mails sent for a company, after the time stamp:
/// the company and the ids of its occurrences that were sent.
pub fn texto_emails_enviados(empresa: &str, ids: &Vec<i32>) -> (r: String)
    ensures
        r@ == empresa@ + " enviou emails com ids: "@ + lista_ids_texto(ids@),
{
    let ghost partes = ids@.map_values(|i: i32| inteiro_texto(i as int));
    proof {
        reveal_strlit("[");
        reveal_strlit("]");
    }
    let mut r = String::from_str(empresa);
    r.append(" enviou emails com ids: ");
    r.append("[");
    let ghost antes = r@;
    let mut i: usize = 0;
    while i < ids.len()
        invariant
            i <= ids@.len(),
            partes == ids@.map_values(|i: i32| inteiro_texto(i as int)),
            r@ == antes + junta(partes.take(i as int), ", "@),
        decreases ids@.len() - i,
    {
        assert(partes.take(i + 1).drop_last() =~= partes.take(i as int));
        if i != 0 {
            r.append(", ");
        }
        escreve_inteiro(ids[i], &mut r);
        i = i + 1;
        assert(r@ =~= antes + junta(partes.take(i as int), ", "@));
    }
    assert(partes.take(ids@.len() as int) =~= partes);
    r.append("]");
    assert(r@ =~= empresa@ + " enviou emails com ids: "@ + lista_ids_texto(ids@));
    r
}

/// What the processing of a company's table asks to be done next.
pub enum Acao {
    /// Fetch the unsent occurrences of the company, at most `limite`.
    BuscarOcorrencias { limite: i64 },
    /// Fetch the recipients registered for the company.
    BuscarDestinos,
    /// Build and send the e-mail of the occurrence at this position of the
    /// fetched list.
    EnviarOcorrencia { indice: usize },
    /// Mark this occurrence as sent in the database.
    MarcarEnviada { id: i32 },
    /// The company is done: `None` when it had no unsent occurrence, else
    /// the ids of the occurrences that were sent and marked.
    Concluir { enviados: Option<Vec<i32>> },
}

/// What happened to the last action.
pub enum Evento {
    /// The processing starts.
    Iniciar,
    /// The unsent occurrences were fetched; their ids, in order.
    Ocorrencias { ids: Vec<i32> },
    /// The recipients were fetched.
    DestinosCarregados,
    /// The e-mail of the current occurrence was sent.
    EmailEnviado,
    /// The current occurrence was marked as sent.
    MarcadaEnviada,
}

/// Where the processing of a company stands.
#[derive(PartialEq, Eq, Structural)]
pub enum Fase {
    Inicio,
    AguardandoOcorrencias,
    AguardandoDestinos,
    AguardandoEnvio,
    AguardandoMarcacao,
    Concluido,
}

/// The processing of one company's table: the occurrences fetched, how far
/// it went and the ids already sent and marked.
pub struct ProcessoTabela {
    fase: Fase,
    ids: Vec<i32>,
    atual: usize,
    enviados: Vec<i32>,
}

// ------------------------------------------------------------------------
// The model of the processing
// ------------------------------------------------------------------------

/// An action, as a value.
pub enum AcaoModelo {
    BuscarOcorrencias(i64),
    BuscarDestinos,
    EnviarOcorrencia(nat),
    MarcarEnviada(i32),
    Concluir(Option<Seq<i32>>),
}

/// An event, as a value.
pub enum EventoModelo {
    Iniciar,
    Ocorrencias(Seq<i32>),
    DestinosCarregados,
    EmailEnviado,
    MarcadaEnviada,
}

/// A state of the processing, as a value.
pub struct EstadoModelo {
    pub fase: Fase,
    pub ids: Seq<i32>,
    pub atual: nat,
    pub enviados: Seq<i32>,
}

impl Acao {
    pub open spec fn modelo(&self) -> AcaoModelo {
        match self {
            Acao::BuscarOcorrencias { limite } => AcaoModelo::BuscarOcorrencias(*limite),
            Acao::BuscarDestinos => AcaoModelo::BuscarDestinos,
            Acao::EnviarOcorrencia { indice } => AcaoModelo::EnviarOcorrencia(*indice as nat),
            Acao::MarcarEnviada { id } => AcaoModelo::MarcarEnviada(*id),
            Acao::Concluir { enviados } => AcaoModelo::Concluir(
                match enviados {
                    Some(v) => Some(v@),
                    None => None,
                },
            ),
        }
    }
}

impl Evento {
    pub open spec fn modelo(&self) -> EventoModelo {
        match self {
            Evento::Iniciar => EventoModelo::Iniciar,
            Evento::Ocorrencias { ids } => EventoModelo::Ocorrencias(ids@),
            Evento::DestinosCarregados => EventoModelo::DestinosCarregados,
            Evento::EmailEnviado => EventoModelo::EmailEnviado,
            Evento::MarcadaEnviada => EventoModelo::MarcadaEnviada,
        }
    }
}

/// The state before anything happened.
pub open spec fn estado_inicial() -> EstadoModelo {
    EstadoModelo { fase: Fase::Inicio, ids: seq![], atual: 0, enviados: seq![] }
}

/// One step of the processing: the next state and action, given what
/// happened. Starting fetches the occurrences; none ends the company with
/// `None`; otherwise the recipients are fetched and the occurrences are sent
/// one by one, each marked right after its e-mail was sent, and the end
/// reports all of them. An event that does not fit the phase ends the
/// processing with what was sent and marked so far.
pub open spec fn passo(s: EstadoModelo, e: EventoModelo) -> (EstadoModelo, AcaoModelo) {
    let encerra = (
        EstadoModelo { fase: Fase::Concluido, ids: s.ids, atual: s.atual, enviados: s.enviados },
        AcaoModelo::Concluir(Some(s.enviados)),
    );
    match e {
        EventoModelo::Iniciar => if s.fase == Fase::Inicio {
            (
                EstadoModelo {
                    fase: Fase::AguardandoOcorrencias,
                    ids: s.ids,
                    atual: s.atual,
                    enviados: s.enviados,
                },
                AcaoModelo::BuscarOcorrencias(LIMITE_OCORRENCIAS),
            )
        } else {
            encerra
        },
        EventoModelo::Ocorrencias(ids) => if s.fase == Fase::AguardandoOcorrencias {
            if ids.len() == 0 {
                (
                    EstadoModelo {
                        fase: Fase::Concluido,
                        ids: s.ids,
                        atual: s.atual,
                        enviados: s.enviados,
                    },
                    AcaoModelo::Concluir(None),
                )
            } else {
                (
                    EstadoModelo { fase: Fase::AguardandoDestinos, ids, atual: 0, enviados: seq![] },
                    AcaoModelo::BuscarDestinos,
                )
            }
        } else {
            encerra
        },
        EventoModelo::DestinosCarregados => if s.fase == Fase::AguardandoDestinos {
            (
                EstadoModelo {
                    fase: Fase::AguardandoEnvio,
                    ids: s.ids,
                    atual: s.atual,
                    enviados: s.enviados,
                },
                AcaoModelo::EnviarOcorrencia(s.atual),
            )
        } else {
            encerra
        },
        EventoModelo::EmailEnviado => if s.fase == Fase::AguardandoEnvio {
            (
                EstadoModelo {
                    fase: Fase::AguardandoMarcacao,
                    ids: s.ids,
                    atual: s.atual,
                    enviados: s.enviados,
                },
                AcaoModelo::MarcarEnviada(s.ids[s.atual as int]),
            )
        } else {
            encerra
        },
        EventoModelo::MarcadaEnviada => if s.fase == Fase::AguardandoMarcacao {
            let proximo: nat = s.atual + 1;
            let enviados = s.enviados.push(s.ids[s.atual as int]);
            if proximo < s.ids.len() {
                (
                    EstadoModelo {
                        fase: Fase::AguardandoEnvio,
                        ids: s.ids,
                        atual: proximo,
                        enviados,
                    },
                    AcaoModelo::EnviarOcorrencia(proximo),
                )
            } else {
                (
                    EstadoModelo { fase: Fase::Concluido, ids: s.ids, atual: proximo, enviados },
                    AcaoModelo::Concluir(Some(enviados)),
                )
            }
        } else {
            encerra
        },
    }
}

/// The states that the processing goes through: the occurrences before the
/// current one are exactly the ones sent and marked, in order; while sending
/// or marking there is a current occurrence; before the occurrences are
/// fetched there are none.
pub open spec fn estado_bem_formado(s: EstadoModelo) -> bool {
    &&& s.atual <= s.ids.len()
    &&& s.enviados == s.ids.take(s.atual as int)
    &&& (s.fase == Fase::AguardandoEnvio || s.fase == Fase::AguardandoMarcacao) ==> s.atual
        < s.ids.len()
    &&& (s.fase == Fase::Inicio || s.fase == Fase::AguardandoOcorrencias) ==> s.ids.len() == 0
    &&& s.fase == Fase::AguardandoDestinos ==> s.ids.len() > 0 && s.atual == 0
}

impl ProcessoTabela {
    /// The state of the processing, as a value.
    pub closed spec fn modelo(&self) -> EstadoModelo {
        EstadoModelo {
            fase: self.fase,
            ids: self.ids@,
            atual: self.atual as nat,
            enviados: self.enviados@,
        }
    }

    /// Every processing is in one of the states that `estado_bem_formado`
    /// describes.
    #[verifier::type_invariant]
    spec fn bem_formado(&self) -> bool {
        estado_bem_formado(self.modelo())
    }

    /// A processing that has not started.
    pub fn new() -> (r: ProcessoTabela)
        ensures
            r.modelo() == estado_inicial(),
    {
        let ids: Vec<i32> = Vec::new();
        let enviados: Vec<i32> = Vec::new();
        assert(enviados@ =~= ids@.take(0));
        let r = ProcessoTabela { fase: Fase::Inicio, ids, atual: 0, enviados };
        assert(r.modelo() =~= estado_inicial());
        r
    }

    /// The same processing in another phase, with the same occurrences.
    fn na_fase(&self, fase: Fase) -> (r: ProcessoTabela)
        requires
            estado_bem_formado(
                EstadoModelo {
                    fase,
                    ids: self.modelo().ids,
                    atual: self.modelo().atual,
                    enviados: self.modelo().enviados,
                },
            ),
        ensures
            r.modelo() == (EstadoModelo {
                fase,
                ids: self.modelo().ids,
                atual: self.modelo().atual,
                enviados: self.modelo().enviados,
            }),
    {
        let ids = self.ids.clone();
        let enviados = self.enviados.clone();
        assert(ids@ =~= self.ids@);
        assert(enviados@ =~= self.enviados@);
        ProcessoTabela { fase, ids, atual: self.atual, enviados }
    }

    /// The next action, given what happened to the last one, as `passo`
    /// describes it.
    pub fn proximo(&mut self, evento: Evento) -> (acao: Acao)
        ensures
            (final(self).modelo(), acao.modelo()) == passo(old(self).modelo(), evento.modelo()),
            estado_bem_formado(final(self).modelo()),
    {
        proof {
            use_type_invariant(&*self);
        }
        let fase = match self.fase {
            Fase::Inicio => 0u8,
            Fase::AguardandoOcorrencias => 1u8,
            Fase::AguardandoDestinos => 2u8,
            Fase::AguardandoEnvio => 3u8,
            Fase::AguardandoMarcacao => 4u8,
            Fase::Concluido => 5u8,
        };
        let (novo, acao) = match evento {
            Evento::Iniciar if fase == 0 => (
                self.na_fase(Fase::AguardandoOcorrencias),
                Acao::BuscarOcorrencias { limite: LIMITE_OCORRENCIAS },
            ),
            Evento::Ocorrencias { ids } if fase == 1 => {
                if ids.len() == 0 {
                    (self.na_fase(Fase::Concluido), Acao::Concluir { enviados: None })
                } else {
                    let enviados: Vec<i32> = Vec::new();
                    assert(enviados@ =~= ids@.take(0));
                    (
                        ProcessoTabela { fase: Fase::AguardandoDestinos, ids, atual: 0, enviados },
                        Acao::BuscarDestinos,
                    )
                }
            },
            Evento::DestinosCarregados if fase == 2 => (
                self.na_fase(Fase::AguardandoEnvio),
                Acao::EnviarOcorrencia { indice: self.atual },
            ),
            Evento::EmailEnviado if fase == 3 => (
                self.na_fase(Fase::AguardandoMarcacao),
                Acao::MarcarEnviada { id: self.ids[self.atual] },
            ),
            Evento::MarcadaEnviada if fase == 4 => {
                let ids = self.ids.clone();
                assert(ids@ =~= self.ids@);
                let mut enviados = self.enviados.clone();
                assert(enviados@ =~= self.enviados@);
                enviados.push(ids[self.atual]);
                let atual = self.atual + 1;
                assert(enviados@ =~= ids@.take(atual as int));
                if atual < ids.len() {
                    (
                        ProcessoTabela { fase: Fase::AguardandoEnvio, ids, atual, enviados },
                        Acao::EnviarOcorrencia { indice: atual },
                    )
                } else {
                    let relatados = enviados.clone();
                    assert(relatados@ =~= enviados@);
                    (
                        ProcessoTabela { fase: Fase::Concluido, ids, atual, enviados },
                        Acao::Concluir { enviados: Some(relatados) },
                    )
                }
            },
            _ => {
                let relatados = self.enviados.clone();
                assert(relatados@ =~= self.enviados@);
                (self.na_fase(Fase::Concluido), Acao::Concluir { enviados: Some(relatados) })
            },
        };
        *self = novo;
        acao
    }
}

// ------------------------------------------------------------------------
// Runs of the processing
// ------------------------------------------------------------------------

/// The final state and the actions of a run of events from state `s`.
pub open spec fn executa(s: EstadoModelo, eventos: Seq<EventoModelo>) -> (EstadoModelo, Seq<
    AcaoModelo,
>)
    decreases eventos.len(),
{
    if eventos.len() == 0 {
        (s, seq![])
    } else {
        let (s1, a) = passo(s, eventos[0]);
        let (s2, acoes) = executa(s1, eventos.drop_first());
        (s2, seq![a] + acoes)
    }
}

/// `n` sends that succeed, each followed by its marking.
pub open spec fn envios_bem_sucedidos(n: nat) -> Seq<EventoModelo>
    decreases n,
{
    if n == 0 {
        seq![]
    } else {
        seq![EventoModelo::EmailEnviado, EventoModelo::MarcadaEnviada] + envios_bem_sucedidos(
            (n - 1) as nat,
        )
    }
}

/// The state that sends occurrence `k`, with the ones before it marked.
pub open spec fn enviando(ids: Seq<i32>, k: nat) -> EstadoModelo {
    EstadoModelo { fase: Fase::AguardandoEnvio, ids, atual: k, enviados: ids.take(k as int) }
}

/// The actions of `j` successful sends from occurrence `k` on: each
/// occurrence is marked, then the next one is sent, or, after the last one,
/// the end reports all of them.
pub open spec fn acoes_de_envio(ids: Seq<i32>, k: nat, j: nat) -> Seq<AcaoModelo>
    decreases j,
{
    if j == 0 {
        seq![]
    } else {
        let seguinte = if k + 1 < ids.len() {
            AcaoModelo::EnviarOcorrencia(k + 1)
        } else {
            AcaoModelo::Concluir(Some(ids))
        };
        seq![AcaoModelo::MarcarEnviada(ids[k as int]), seguinte] + acoes_de_envio(
            ids,
            k + 1,
            (j - 1) as nat,
        )
    }
}

/// `j` successful sends from occurrence `k` on reach the state that sends
/// occurrence `k + j`, or, past the last occurrence, the end with all of
/// them marked.
proof fn lema_envios(ids: Seq<i32>, k: nat, j: nat)
    requires
        k + j <= ids.len(),
    ensures
        executa(enviando(ids, k), envios_bem_sucedidos(j)) == (
            if k + j < ids.len() {
                enviando(ids, k + j)
            } else if j == 0 {
                enviando(ids, k)
            } else {
                EstadoModelo { fase: Fase::Concluido, ids, atual: ids.len(), enviados: ids }
            },
            acoes_de_envio(ids, k, j),
        ),
        0 < j && k + j < ids.len() ==> acoes_de_envio(ids, k, j).last()
            == AcaoModelo::EnviarOcorrencia(k + j),
    decreases j,
{
    if j > 0 {
        let s = enviando(ids, k);
        let ev = envios_bem_sucedidos(j);
        let resto = envios_bem_sucedidos((j - 1) as nat);
        assert(ev.drop_first() =~= seq![EventoModelo::MarcadaEnviada] + resto);
        assert(ev.drop_first().drop_first() =~= resto);
        let (s1, a1) = passo(s, EventoModelo::EmailEnviado);
        let (s2, a2) = passo(s1, EventoModelo::MarcadaEnviada);
        assert(ids.take(k as int).push(ids[k as int]) =~= ids.take((k + 1) as int));
        let (s3, acoes) = executa(s2, resto);
        assert(executa(s1, ev.drop_first()) == (s3, seq![a2] + acoes));
        assert(executa(s, ev) == (s3, seq![a1] + (seq![a2] + acoes)));
        assert(seq![a1] + (seq![a2] + acoes) =~= seq![a1, a2] + acoes);
        if k + 1 < ids.len() {
            assert(s2 == enviando(ids, k + 1));
            lema_envios(ids, k + 1, (j - 1) as nat);
        } else {
            assert(ids.take((k + 1) as int) =~= ids);
            assert(resto =~= Seq::<EventoModelo>::empty());
            assert(acoes_de_envio(ids, k + 1, 0) =~= Seq::<AcaoModelo>::empty());
        }
        if j == 1 {
            assert(acoes_de_envio(ids, k + 1, 0) =~= Seq::<AcaoModelo>::empty());
        }
    }
}

/// The actions and the final state of the start of a run: fetch the
/// occurrences, fetch the recipients, send the first one, then `j` sends
/// that succeed.
proof fn lema_inicio(ids: Seq<i32>, j: nat)
    requires
        ids.len() > 0,
        j <= ids.len(),
    ensures
        ({
            let eventos = seq![
                EventoModelo::Iniciar,
                EventoModelo::Ocorrencias(ids),
                EventoModelo::DestinosCarregados,
            ] + envios_bem_sucedidos(j);
            let (fim, acoes) = executa(estado_inicial(), eventos);
            &&& acoes == seq![
                AcaoModelo::BuscarOcorrencias(LIMITE_OCORRENCIAS),
                AcaoModelo::BuscarDestinos,
                AcaoModelo::EnviarOcorrencia(0),
            ] + acoes_de_envio(ids, 0, j)
            &&& fim == executa(enviando(ids, 0), envios_bem_sucedidos(j)).0
        }),
{
    let envios = envios_bem_sucedidos(j);
    let eventos = seq![
        EventoModelo::Iniciar,
        EventoModelo::Ocorrencias(ids),
        EventoModelo::DestinosCarregados,
    ] + envios;
    let (s1, a1) = passo(estado_inicial(), EventoModelo::Iniciar);
    let (s2, a2) = passo(s1, EventoModelo::Ocorrencias(ids));
    let (s3, a3) = passo(s2, EventoModelo::DestinosCarregados);
    assert(ids.take(0) =~= Seq::<i32>::empty());
    assert(s3 == enviando(ids, 0));
    lema_envios(ids, 0, j);
    assert(eventos.drop_first() =~= seq![EventoModelo::Ocorrencias(ids), EventoModelo::DestinosCarregados]
        + envios);
    assert(eventos.drop_first().drop_first() =~= seq![EventoModelo::DestinosCarregados] + envios);
    assert(eventos.drop_first().drop_first().drop_first() =~= envios);
    let (s4, acoes) = executa(s3, envios);
    assert(executa(s2, eventos.drop_first().drop_first()) == (s4, seq![a3] + acoes));
    assert(executa(s1, eventos.drop_first()) == (s4, seq![a2] + (seq![a3] + acoes)));
    assert(executa(estado_inicial(), eventos).1 =~= seq![a1, a2, a3] + acoes);
}

/// A company whose e-mail fails at occurrence `j`: when the e-mail of
/// occurrence `j` is asked for, exactly the occurrences before it have been
/// sent and marked, so the one that failed, and the ones after it, stay
/// unmarked.
pub proof fn lei_falha_no_envio(ids: Seq<i32>, j: nat)
    requires
        j < ids.len(),
    ensures
        ({
            let eventos = seq![
                EventoModelo::Iniciar,
                EventoModelo::Ocorrencias(ids),
                EventoModelo::DestinosCarregados,
            ] + envios_bem_sucedidos(j);
            let (fim, acoes) = executa(estado_inicial(), eventos);
            &&& acoes.last() == AcaoModelo::EnviarOcorrencia(j)
            &&& fim.fase == Fase::AguardandoEnvio
            &&& fim.enviados == ids.take(j as int)
        }),
{
    lema_inicio(ids, j);
    lema_envios(ids, 0, j);
    if j == 0 {
        assert(acoes_de_envio(ids, 0, 0) =~= Seq::<AcaoModelo>::empty());
    }
}

/// A company without unsent occurrences: its occurrences are fetched and it
/// ends with nothing to report.
pub proof fn lei_sem_ocorrencias()
    ensures
        executa(
            estado_inicial(),
            seq![EventoModelo::Iniciar, EventoModelo::Ocorrencias(seq![])],
        ).1 == seq![
            AcaoModelo::BuscarOcorrencias(LIMITE_OCORRENCIAS),
            AcaoModelo::Concluir(None),
        ],
{
    let ev = seq![EventoModelo::Iniciar, EventoModelo::Ocorrencias(seq![])];
    assert(ev.drop_first() =~= seq![EventoModelo::Ocorrencias(seq![])]);
    assert(ev.drop_first().drop_first() =~= Seq::<EventoModelo>::empty());
    let (s1, a1) = passo(estado_inicial(), EventoModelo::Iniciar);
    let (s2, a2) = passo(s1, EventoModelo::Ocorrencias(seq![]));
    assert(executa(s2, Seq::<EventoModelo>::empty()).1 =~= Seq::<AcaoModelo>::empty());
    assert(executa(s1, ev.drop_first()).1 =~= seq![a2]);
    assert(executa(estado_inicial(), ev).1 =~= seq![a1, a2]);
}

/// A company whose e-mails all go out: its occurrences and recipients are
/// fetched, then each occurrence, in order, is sent and right after marked,
/// and the end reports all of them, in order.
pub proof fn lei_envio_completo(ids: Seq<i32>)
    requires
        ids.len() > 0,
    ensures
        ({
            let eventos = seq![
                EventoModelo::Iniciar,
                EventoModelo::Ocorrencias(ids),
                EventoModelo::DestinosCarregados,
            ] + envios_bem_sucedidos(ids.len());
            let (fim, acoes) = executa(estado_inicial(), eventos);
            &&& acoes == seq![
                AcaoModelo::BuscarOcorrencias(LIMITE_OCORRENCIAS),
                AcaoModelo::BuscarDestinos,
                AcaoModelo::EnviarOcorrencia(0),
            ] + acoes_de_envio(ids, 0, ids.len())
            &&& acoes.last() == AcaoModelo::Concluir(Some(ids))
            &&& fim.fase == Fase::Concluido
            &&& fim.enviados == ids
        }),
{
    lema_inicio(ids, ids.len());
    lema_envios(ids, 0, ids.len());
    lema_ultima_acao(ids, 0, ids.len());
}

/// The last action of the sends up to the last occurrence is the end that
/// reports all of them.
proof fn lema_ultima_acao(ids: Seq<i32>, k: nat, j: nat)
    requires
        0 < j,
        k + j == ids.len(),
    ensures
        acoes_de_envio(ids, k, j).last() == AcaoModelo::Concluir(Some(ids)),
    decreases j,
{
    if j > 1 {
        lema_ultima_acao(ids, k + 1, (j - 1) as nat);
    } else {
        assert(acoes_de_envio(ids, k + 1, 0) =~= Seq::<AcaoModelo>::empty());
    }
}

} // verus!
