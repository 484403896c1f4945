//! The pieces of text that an e-mail is made of, taken from the rows of the
//! occurrence tables.
use vstd::prelude::*;

use crate::db::models::{DataHora, MysqlTime, Ocor, OcorSoe, ano_com_sinal};
use crate::error::{MissignFieldError, TableProcessError};
use crate::formatacao::{
    digitos, dois_digitos, escreve_inteiro, escreve_preenchido, inteiro_texto,
    preenche,
};

verus! {

// ------------------------------------------------------------------------
// Dates and times
// ------------------------------------------------------------------------

/// The date and time that a timestamp column holds: none for the all-zero
/// timestamp, else its calendar fields (whole seconds).
pub open spec fn parse_time_spec(t: MysqlTime) -> Option<DataHora> {
    if t.zerado() {
        None
    } else {
        Some(
            DataHora {
                ano: ano_com_sinal(t.year) as i32,
                mes: t.month,
                dia: t.day,
                hora: t.hour,
                minuto: t.minute,
                segundo: t.second,
                nanossegundo: 0,
            },
        )
    }
}

/// The fraction of a second as a time of day shows it: nothing for a whole
/// second, else milli-, micro- or nanoseconds, whichever is exact.
pub open spec fn fracao_texto(n: nat) -> Seq<char> {
    if n == 0 {
        seq![]
    } else if n % 1_000_000 == 0 {
        seq!['.'] + preenche(digitos(n / 1_000_000), 3)
    } else if n % 1000 == 0 {
        seq!['.'] + preenche(digitos(n / 1000), 6)
    } else {
        seq!['.'] + preenche(digitos(n), 9)
    }
}

/// A time of day as `HH:MM:SS` with its fraction; a leap second is shown as
/// second 60.
pub open spec fn hora_texto(h: nat, m: nat, s: nat, nano: nat) -> Seq<char> {
    let segundo: nat = if nano >= 1_000_000_000 { s + 1 } else { s };
    let fracao: nat = if nano >= 1_000_000_000 { (nano - 1_000_000_000) as nat } else { nano };
    dois_digitos(h) + seq![':'] + dois_digitos(m) + seq![':'] + dois_digitos(segundo)
        + fracao_texto(fracao)
}

/// A date and time as `DD-MM-YYYY HH:MM:SS`, or the empty text when there is
/// none.
pub open spec fn format_time_spec(t: Option<DataHora>) -> Seq<char> {
    match t {
        None => seq![],
        Some(d) => dois_digitos(d.dia as nat) + seq!['-'] + dois_digitos(d.mes as nat) + seq!['-']
            + inteiro_texto(d.ano as int) + seq![' '] + hora_texto(
            d.hora as nat,
            d.minuto as nat,
            d.segundo as nat,
            d.nanossegundo as nat,
        ),
    }
}

/// The number of a day of the proleptic Gregorian calendar: consecutive days
/// have consecutive numbers (day 0 is 1 March of year 0). Years are counted
/// from March, so that the leap day ends a year, and in cycles of 400 years
/// of 146097 days.
pub open spec fn numero_do_dia(a: int, m: int, d: int) -> int {
    let y = if m <= 2 { a - 1 } else { a };
    let ciclo = y / 400;
    let ano_do_ciclo = y - ciclo * 400;
    let mes_desde_marco = if m > 2 { m - 3 } else { m + 9 };
    let dia_do_ano = (153 * mes_desde_marco + 2) / 5 + d - 1;
    ciclo * 146097 + ano_do_ciclo * 365 + ano_do_ciclo / 4 - ano_do_ciclo / 100 + dia_do_ano
}

/// The second of the day of a time.
pub open spec fn segundo_do_dia(t: DataHora) -> int {
    t.hora * 3600 + t.minuto * 60 + t.segundo
}

/// The signed number of whole seconds from `ini` to `fim`: the days between
/// their dates, then the seconds between their times of day.
pub open spec fn segundos_entre(ini: DataHora, fim: DataHora) -> int {
    (numero_do_dia(fim.ano as int, fim.mes as int, fim.dia as int) - numero_do_dia(
        ini.ano as int,
        ini.mes as int,
        ini.dia as int,
    )) * 86400 + segundo_do_dia(fim) - segundo_do_dia(ini)
}

/// The duration between two times as the time of day it reaches from
/// midnight (whole days dropped, negative durations counted back from
/// midnight), followed by `,0` for its milliseconds; `00:00:00` when either
/// time is missing.
pub open spec fn duracao_spec(ini: Option<DataHora>, fim: Option<DataHora>) -> Seq<char> {
    match (ini, fim) {
        (Some(i), Some(f)) => {
            let s = segundos_entre(i, f) % 86400;
            hora_texto((s / 3600) as nat, ((s / 60) % 60) as nat, (s % 60) as nat, 0)
                + seq![',', '0']
        },
        _ => hora_texto(0, 0, 0, 0),
    }
}

/// Reads a timestamp column: `None` for the all-zero timestamp, else its date
/// and time.
pub fn parse_time(time: MysqlTime) -> (r: Option<DataHora>)
    requires
        time.legivel(),
    ensures
        r == parse_time_spec(time),
        r matches Some(d) ==> d.valida(),
{
    if time.year == 0 && time.month == 0 && time.day == 0 && time.hour == 0 && time.minute == 0
        && time.second == 0 && time.second_part == 0 {
        None
    } else {
        let ano: i32 = if time.year < 0x8000_0000 {
            time.year as i32
        } else {
            i32::MIN + ((time.year - 0x8000_0000) as i32)
        };
        Some(
            DataHora {
                ano,
                mes: time.month,
                dia: time.day,
                hora: time.hour,
                minuto: time.minute,
                segundo: time.second,
                nanossegundo: 0,
            },
        )
    }
}

/// Appends the fraction of a second as `fracao_texto` writes it.
fn escreve_fracao(fracao: u32, saida: &mut String)
    ensures
        final(saida)@ == old(saida)@ + fracao_texto(fracao as nat),
{
    proof {
        reveal_strlit(".");
    }
    if fracao == 0 {
    } else if fracao % 1_000_000 == 0 {
        saida.append(".");
        escreve_preenchido((fracao / 1_000_000) as u64, 3, saida);
    } else if fracao % 1000 == 0 {
        saida.append(".");
        escreve_preenchido((fracao / 1000) as u64, 6, saida);
    } else {
        saida.append(".");
        escreve_preenchido(fracao as u64, 9, saida);
    }
    assert(final(saida)@ =~= old(saida)@ + fracao_texto(fracao as nat));
}

/// Appends a time of day in the `HH:MM:SS` form, with its fraction.
fn escreve_hora(h: u32, m: u32, s: u32, nano: u32, saida: &mut String)
    requires
        h < 100,
        m < 100,
        s < 99,
        nano < 2_000_000_000,
    ensures
        final(saida)@ == old(saida)@ + hora_texto(h as nat, m as nat, s as nat, nano as nat),
{
    let segundo: u32 = if nano >= 1_000_000_000 { s + 1 } else { s };
    let fracao: u32 = if nano >= 1_000_000_000 { nano - 1_000_000_000 } else { nano };
    proof {
        reveal_strlit(":");
    }
    let ghost s0 = saida@;
    escreve_preenchido(h as u64, 2, saida);
    saida.append(":");
    escreve_preenchido(m as u64, 2, saida);
    saida.append(":");
    escreve_preenchido(segundo as u64, 2, saida);
    let ghost s1 = saida@;
    assert(s1 =~= s0 + dois_digitos(h as nat) + seq![':'] + dois_digitos(m as nat) + seq![':']
        + dois_digitos(segundo as nat));
    escreve_fracao(fracao, saida);
    assert(final(saida)@ =~= old(saida)@ + hora_texto(
        h as nat,
        m as nat,
        s as nat,
        nano as nat,
    ));
}

/// Writes a date and time as `DD-MM-YYYY HH:MM:SS`; the empty text for none.
pub fn format_time(time: Option<DataHora>) -> (r: String)
    requires
        time matches Some(d) ==> d.valida(),
    ensures
        r@ == format_time_spec(time),
{
    match time {
        None => String::new(),
        Some(t) => {
            proof {
                reveal_strlit("-");
                reveal_strlit(" ");
            }
            let mut s = String::new();
            escreve_preenchido(t.dia as u64, 2, &mut s);
            s.append("-");
            escreve_preenchido(t.mes as u64, 2, &mut s);
            s.append("-");
            escreve_inteiro(t.ano, &mut s);
            s.append(" ");
            escreve_hora(t.hora, t.minuto, t.segundo, t.nanossegundo, &mut s);
            assert(s@ =~= format_time_spec(time));
            s
        },
    }
}

/// The signed number of whole seconds from `ini` to `fim`.
///
/// Calls chrono: builds both date-times with `NaiveDate::from_ymd` and
/// `and_hms` (which accept exactly the valid dates and times of day), then
/// `(fim - ini).num_seconds()`, which counts the days between the dates in
/// the proleptic Gregorian calendar and the seconds between the times of
/// day (there is no fraction of a second here).
#[verifier::external_body]
fn chrono_segundos_entre(ini: &DataHora, fim: &DataHora) -> (r: i64)
    requires
        ini.valida(),
        fim.valida(),
        ini.nanossegundo == 0,
        fim.nanossegundo == 0,
    ensures
        r == segundos_entre(*ini, *fim),
{
    #[allow(deprecated)]
    let a = chrono::NaiveDate::from_ymd(ini.ano, ini.mes, ini.dia).and_hms(ini.hora, ini.minuto, ini.segundo);
    #[allow(deprecated)]
    let b = chrono::NaiveDate::from_ymd(fim.ano, fim.mes, fim.dia).and_hms(fim.hora, fim.minuto, fim.segundo);
    (b - a).num_seconds()
}

/// The remainder of `d` by 86400 that is not negative.
fn segundos_do_dia(d: i64) -> (r: u64)
    ensures
        r == d % 86400,
{
    if d >= 0 {
        (d % 86400) as u64
    } else {
        let p: u64 = (-(d + 1)) as u64;
        let r: u64 = 86399 - (p % 86400);
        assert(r == d % 86400) by (nonlinear_arith)
            requires
                p == -(d + 1),
                r == 86399 - (p % 86400),
                d < 0,
        ;
        r
    }
}

/// The duration text of an occurrence from its start to its end.
pub fn duracao_texto(ini: Option<DataHora>, fim: Option<DataHora>) -> (r: String)
    requires
        ini matches Some(i) ==> i.valida() && i.nanossegundo == 0,
        fim matches Some(f) ==> f.valida() && f.nanossegundo == 0,
    ensures
        r@ == duracao_spec(ini, fim),
        ini is Some && ini == fim ==> r@ == "00:00:00,0"@,
{
    let mut s = String::new();
    match (ini, fim) {
        (Some(i), Some(f)) => {
            let d = chrono_segundos_entre(&i, &f);
            let dia = segundos_do_dia(d);
            proof {
                reveal_strlit(",0");
            }
            escreve_hora((dia / 3600) as u32, ((dia / 60) % 60) as u32, (dia % 60) as u32, 0, &mut s);
            s.append(",0");
            assert(s@ =~= duracao_spec(ini, fim));
            proof {
                if ini == fim {
                    reveal_strlit("00:00:00,0");
                    reveal_strlit(":");
                    assert(dia == 0);
                    assert(s@ =~= "00:00:00,0"@);
                }
            }
        },
        _ => {
            escreve_hora(0, 0, 0, 0, &mut s);
        },
    }
    s
}

// ------------------------------------------------------------------------
// The header of the e-mail
// ------------------------------------------------------------------------

/// The name of an occurrence type from its one-letter code.
pub open spec fn nome_tipo(codigo: Seq<char>) -> Option<Seq<char>> {
    if codigo == seq!['C'] {
        Some("Comandado"@)
    } else if codigo == seq!['R'] {
        Some("Religamento"@)
    } else if codigo == seq!['L'] {
        Some("LockOut"@)
    } else if codigo == seq!['N'] {
        Some("Normalizou"@)
    } else {
        None
    }
}

/// The texts of the header of an e-mail, as values.
pub struct TextInfoView {
    pub subestacao: Seq<char>,
    pub modulo: Seq<char>,
    pub equipamento: Seq<char>,
    pub tipo: Seq<char>,
    pub inicio: Seq<char>,
    pub termino: Seq<char>,
    pub duracao: Seq<char>,
}

/// The header texts of an occurrence, or the text of the error that the
/// first missing or wrong field gives: the type code first, then the
/// substation, the bay and the equipment.
pub open spec fn text_info_spec(caso: Ocor) -> Result<TextInfoView, Seq<char>> {
    match caso.tipo_oco {
        None => Err("Tipo de Ocorrencia"@),
        Some(codigo) => match nome_tipo(codigo@) {
            None => Err("Tipo "@ + codigo@ + " não é válido"@),
            Some(tipo) => {
                if caso.se is None {
                    Err("SE"@)
                } else if caso.al is None {
                    Err("AL"@)
                } else if caso.eqp is None {
                    Err("EQP"@)
                } else {
                    let ini = parse_time_spec(caso.hora_ini);
                    let fim = parse_time_spec(caso.hora_fim);
                    Ok(
                        TextInfoView {
                            subestacao: caso.se.unwrap()@,
                            modulo: caso.al.unwrap()@,
                            equipamento: caso.eqp.unwrap()@,
                            tipo,
                            inicio: format_time_spec(ini),
                            termino: format_time_spec(fim),
                            duracao: duracao_spec(ini, fim),
                        },
                    )
                }
            },
        },
    }
}

/// The header texts of an occurrence: where it happened, its type, when it
/// started and ended and how long it lasted.
pub struct TextInfo<'a> {
    pub subestacao: &'a str,
    pub modulo: &'a str,
    pub equipamento: &'a str,
    pub tipo: &'a str,
    pub inicio: String,
    pub termino: String,
    pub duracao: String,
}

impl<'a> TextInfo<'a> {
    pub open spec fn view(&self) -> TextInfoView {
        TextInfoView {
            subestacao: self.subestacao@,
            modulo: self.modulo@,
            equipamento: self.equipamento@,
            tipo: self.tipo@,
            inicio: self.inicio@,
            termino: self.termino@,
            duracao: self.duracao@,
        }
    }
}

/// The name of an occurrence type, for a code that has one.
fn nome_do_tipo(codigo: &str) -> (r: Option<&'static str>)
    ensures
        r matches Some(n) ==> nome_tipo(codigo@) == Some(n@),
        r is None ==> nome_tipo(codigo@) is None,
{
    if codigo.unicode_len() != 1 {
        assert(codigo@ != seq!['C'] && codigo@ != seq!['R'] && codigo@ != seq!['L']
            && codigo@ != seq!['N']);
        return None;
    }
    let c = codigo.get_char(0);
    assert(codigo@ =~= seq![c]);
    if c == 'C' {
        Some("Comandado")
    } else if c == 'R' {
        Some("Religamento")
    } else if c == 'L' {
        Some("LockOut")
    } else if c == 'N' {
        Some("Normalizou")
    } else {
        None
    }
}

impl<'a> TextInfo<'a> {
    /// Takes the header texts out of an occurrence, or names the first field
    /// that is missing or wrong.
    pub fn build_from(caso: &'a Ocor) -> (r: Result<TextInfo<'a>, TableProcessError>)
        requires
            text_info_spec(*caso) is Ok ==> caso.hora_ini.legivel() && caso.hora_fim.legivel(),
        ensures
            r is Ok <==> text_info_spec(*caso) is Ok,
            !caso.hora_ini.zerado() && caso.hora_ini == caso.hora_fim ==> (r matches Ok(t)
                ==> t.duracao@ == "00:00:00,0"@),
            r matches Ok(t) ==> text_info_spec(*caso) == Ok::<TextInfoView, Seq<char>>(t.view()),
            r matches Err(e) ==> (e matches TableProcessError::MissingData(m) && text_info_spec(*caso)
                == Err::<TextInfoView, Seq<char>>(m.0@)),
    {
        let codigo = match caso.tipo_oco.as_ref() {
            None => {
                return Err(TableProcessError::MissingData(MissignFieldError::new("Tipo de Ocorrencia")));
            },
            Some(c) => c,
        };
        let tipo = match nome_do_tipo(codigo.as_str()) {
            Some(n) => n,
            None => {
                let texto = String::from_str("Tipo ").concat(codigo.as_str()).concat(
                    " não é válido",
                );
                return Err(TableProcessError::MissingData(MissignFieldError(texto)));
            },
        };
        let subestacao = match caso.se.as_ref() {
            None => {
                return Err(TableProcessError::MissingData(MissignFieldError::new("SE")));
            },
            Some(s) => s.as_str(),
        };
        let modulo = match caso.al.as_ref() {
            None => {
                return Err(TableProcessError::MissingData(MissignFieldError::new("AL")));
            },
            Some(s) => s.as_str(),
        };
        let equipamento = match caso.eqp.as_ref() {
            None => {
                return Err(TableProcessError::MissingData(MissignFieldError::new("EQP")));
            },
            Some(s) => s.as_str(),
        };
        let ini = parse_time(caso.hora_ini);
        let fim = parse_time(caso.hora_fim);
        let duracao = duracao_texto(ini, fim);
        let inicio = format_time(ini);
        let termino = format_time(fim);
        let r = TextInfo { subestacao, modulo, equipamento, tipo, inicio, termino, duracao };
        assert(text_info_spec(*caso) == Ok::<TextInfoView, Seq<char>>(r.view()));
        Ok(r)
    }
}

// ------------------------------------------------------------------------
// The tables of the e-mail
// ------------------------------------------------------------------------

/// One event of an occurrence as its table shows it.
pub struct OcorrenciaSoe {
    pub hora_inicio: String,
    pub hora_fim: String,
    pub mensagem: String,
    pub agente: String,
}

/// The text of an optional field, empty when absent.
pub open spec fn ou_vazio(campo: Option<String>) -> Seq<char> {
    match campo {
        Some(s) => s@,
        None => seq![],
    }
}

impl OcorrenciaSoe {
    /// The row of an event: when it happened, when it was recorded, its
    /// message and who acted; absent texts are empty.
    pub fn build_from(soe: OcorSoe) -> (r: OcorrenciaSoe)
        requires
            soe.hora_evento matches Some(d) ==> d.valida(),
            soe.time_stamp matches Some(d) ==> d.valida(),
        ensures
            r.hora_inicio@ == format_time_spec(soe.hora_evento),
            r.hora_fim@ == format_time_spec(soe.time_stamp),
            r.mensagem@ == ou_vazio(soe.mensagem),
            r.agente@ == ou_vazio(soe.actor_id),
    {
        let hora_inicio = format_time(soe.hora_evento);
        let hora_fim = format_time(soe.time_stamp);
        let mensagem = soe.mensagem.unwrap_or(String::new());
        let agente = soe.actor_id.unwrap_or(String::new());
        OcorrenciaSoe { hora_inicio, hora_fim, mensagem, agente }
    }
}

/// The fault currents of an occurrence, each as the decimal text of its
/// value.
pub struct FaltasTabela {
    pub fase_a: String,
    pub fase_b: String,
    pub fase_c: String,
    pub fase_n: String,
}

/// The operating condition before or after an occurrence: active power and
/// the currents, each as the decimal text of its value.
pub struct CondPrePosTabela {
    pub potencia_ativa: String,
    pub fase_a: String,
    pub fase_b: String,
    pub fase_c: String,
    pub fase_n: String,
}

/// The data of the tables of an e-mail.
pub struct TableInfo {
    pub faltas: FaltasTabela,
    pub cond_pre: CondPrePosTabela,
    pub cond_pos: CondPrePosTabela,
    pub eventos: Vec<OcorrenciaSoe>,
}

/// Whether `e` is the row that `OcorrenciaSoe::build_from` makes of `s`.
pub open spec fn evento_de(s: OcorSoe, e: OcorrenciaSoe) -> bool {
    &&& e.hora_inicio@ == format_time_spec(s.hora_evento)
    &&& e.hora_fim@ == format_time_spec(s.time_stamp)
    &&& e.mensagem@ == ou_vazio(s.mensagem)
    &&& e.agente@ == ou_vazio(s.actor_id)
}

/// An event whose times, where present, are valid.
pub open spec fn soe_legivel(s: OcorSoe) -> bool {
    &&& s.hora_evento matches Some(d) ==> d.valida()
    &&& s.time_stamp matches Some(d) ==> d.valida()
}

/// The outcome of reading a JSON column into a table: `None` when the column
/// is null, else what the parser gave.
pub type Leitura<T> = Option<Result<T, serde_json::Error>>;

/// Whether the outcome of a column is the error that it gives, in the order
/// in which the columns are checked: a null column gives `MissingData`
/// naming it by `rotulo`, a parse failure gives `MalformedData` with the
/// parser's error.
pub open spec fn falha_de<T>(leitura: Leitura<T>, rotulo: Seq<char>, r: TableProcessError) -> bool {
    match leitura {
        None => r matches TableProcessError::MissingData(e) && e.0@ == rotulo,
        Some(Err(j)) => r == TableProcessError::MalformedData(j),
        Some(Ok(_)) => false,
    }
}

/// Whether the three JSON columns of an occurrence were all read.
pub open spec fn leituras_lidas(
    cond_pre: Leitura<CondPrePosTabela>,
    cond_pos: Leitura<CondPrePosTabela>,
    faltas: Leitura<FaltasTabela>,
) -> bool {
    &&& cond_pre matches Some(Ok(_))
    &&& cond_pos matches Some(Ok(_))
    &&& faltas matches Some(Ok(_))
}

/// Whether `e` is the error that the readings of the three columns give:
/// that of the first one, in the order condition before, condition after,
/// fault currents, that is null or malformed.
pub open spec fn falha_das_leituras(
    cond_pre: Leitura<CondPrePosTabela>,
    cond_pos: Leitura<CondPrePosTabela>,
    faltas: Leitura<FaltasTabela>,
    e: TableProcessError,
) -> bool {
    if !(cond_pre matches Some(Ok(_))) {
        falha_de(cond_pre, "condPre"@, e)
    } else if !(cond_pos matches Some(Ok(_))) {
        falha_de(cond_pos, "condPós"@, e)
    } else {
        falha_de(faltas, "tabelaFaltas"@, e)
    }
}

/// Whether `t` holds the tables that the readings of the three columns and
/// the events give: the tables read, and one row per event, in their order.
pub open spec fn tabela_de(
    cond_pre: Leitura<CondPrePosTabela>,
    cond_pos: Leitura<CondPrePosTabela>,
    faltas: Leitura<FaltasTabela>,
    soe: Seq<OcorSoe>,
    t: TableInfo,
) -> bool {
    &&& cond_pre == Some(Ok::<CondPrePosTabela, serde_json::Error>(t.cond_pre))
    &&& cond_pos == Some(Ok::<CondPrePosTabela, serde_json::Error>(t.cond_pos))
    &&& faltas == Some(Ok::<FaltasTabela, serde_json::Error>(t.faltas))
    &&& t.eventos@.len() == soe.len()
    &&& forall|i: int| 0 <= i < soe.len() ==> evento_de(soe[i], #[trigger] t.eventos@[i])
}

impl TableInfo {
    /// The tables of an occurrence from the readings of its JSON columns
    /// (condition before, condition after, fault currents) and its events.
    /// The first column that is null or malformed, in that order, gives the
    /// error; else the events become rows in their order.
    pub fn build_from(
        cond_pre: Leitura<CondPrePosTabela>,
        cond_pos: Leitura<CondPrePosTabela>,
        faltas: Leitura<FaltasTabela>,
        soe: Vec<OcorSoe>,
    ) -> (r: Result<TableInfo, TableProcessError>)
        requires
            forall|i: int| 0 <= i < soe@.len() ==> #[trigger] soe_legivel(soe@[i]),
        ensures
            r is Ok <==> leituras_lidas(cond_pre, cond_pos, faltas),
            r matches Err(e) ==> falha_das_leituras(cond_pre, cond_pos, faltas, e),
            r matches Ok(t) ==> tabela_de(cond_pre, cond_pos, faltas, soe@, t),
    {
        let cond_pre = match cond_pre {
            None => {
                return Err(TableProcessError::MissingData(MissignFieldError::new("condPre")));
            },
            Some(Err(j)) => {
                return Err(TableProcessError::MalformedData(j));
            },
            Some(Ok(t)) => t,
        };
        let cond_pos = match cond_pos {
            None => {
                return Err(TableProcessError::MissingData(MissignFieldError::new("condPós")));
            },
            Some(Err(j)) => {
                return Err(TableProcessError::MalformedData(j));
            },
            Some(Ok(t)) => t,
        };
        let faltas = match faltas {
            None => {
                return Err(TableProcessError::MissingData(MissignFieldError::new("tabelaFaltas")));
            },
            Some(Err(j)) => {
                return Err(TableProcessError::MalformedData(j));
            },
            Some(Ok(t)) => t,
        };
        let ghost orig = soe@;
        let mut eventos: Vec<OcorrenciaSoe> = Vec::new();
        for s in it: soe.into_iter()
            invariant
                it.seq() == orig,
                forall|i: int| 0 <= i < orig.len() ==> #[trigger] soe_legivel(orig[i]),
                eventos@.len() == it.index(),
                forall|i: int| 0 <= i < it.index() ==> evento_de(orig[i], #[trigger] eventos@[i]),
        {
            proof {
                assert(soe_legivel(orig[it.index() as int]));
            }
            eventos.push(OcorrenciaSoe::build_from(s));
        }
        Ok(TableInfo { faltas, cond_pre, cond_pos, eventos })
    }
}

/// An earlier occurrence of the same equipment.
pub struct PrevEqp {
    pub faltas: FaltasTabela,
    pub inicio: String,
    pub prot_sen: String,
    pub prot_atu: String,
}

/// The texts of the row of an earlier occurrence, as values.
pub struct PrevEqpView {
    pub fase_a: Seq<char>,
    pub fase_b: Seq<char>,
    pub fase_c: Seq<char>,
    pub fase_n: Seq<char>,
    pub inicio: Seq<char>,
    pub prot_sen: Seq<char>,
    pub prot_atu: Seq<char>,
}

impl PrevEqp {
    pub open spec fn view(&self) -> PrevEqpView {
        PrevEqpView {
            fase_a: self.faltas.fase_a@,
            fase_b: self.faltas.fase_b@,
            fase_c: self.faltas.fase_c@,
            fase_n: self.faltas.fase_n@,
            inicio: self.inicio@,
            prot_sen: self.prot_sen@,
            prot_atu: self.prot_atu@,
        }
    }
}

/// The row that an earlier occurrence gives once its fault currents were
/// read into `f`: its start and protections, empty where absent.
pub open spec fn prev_eqp_spec(caso: Ocor, f: FaltasTabela) -> PrevEqpView {
    PrevEqpView {
        fase_a: f.fase_a@,
        fase_b: f.fase_b@,
        fase_c: f.fase_c@,
        fase_n: f.fase_n@,
        inicio: format_time_spec(parse_time_spec(caso.hora_oco)),
        prot_sen: ou_vazio(caso.prot_sen),
        prot_atu: ou_vazio(caso.prot_atu),
    }
}

/// An earlier occurrence and the reading of its fault currents, as
/// `PrevEqp::build_from` takes them.
pub open spec fn anterior_legivel(par: (Ocor, Leitura<FaltasTabela>)) -> bool {
    &&& (par.1 is None <==> par.0.faltas is None)
    &&& par.1 matches Some(Ok(_)) ==> par.0.hora_oco.legivel()
}

/// The rows of the earlier occurrences whose fault currents were read, in
/// their order; the ones whose column is null or malformed are left out.
pub open spec fn anteriores_spec(pares: Seq<(Ocor, Leitura<FaltasTabela>)>) -> Seq<PrevEqpView>
    decreases pares.len(),
{
    if pares.len() == 0 {
        seq![]
    } else {
        let resto = anteriores_spec(pares.drop_last());
        match pares.last().1 {
            Some(Ok(f)) => resto.push(prev_eqp_spec(pares.last().0, f)),
            _ => resto,
        }
    }
}

impl PrevEqp {
    /// An earlier occurrence from its row and the reading of its fault
    /// currents: a null column gives `MissingData` naming `tabelaFaltas`, a
    /// malformed one the parser's error; else the row shows when it happened
    /// and its protections, empty where absent.
    pub fn build_from(caso: Ocor, faltas: Leitura<FaltasTabela>) -> (r: Result<
        Self,
        TableProcessError,
    >)
        requires
            faltas is None <==> caso.faltas is None,
            faltas matches Some(Ok(_)) ==> caso.hora_oco.legivel(),
        ensures
            r is Ok <==> (faltas matches Some(Ok(_))),
            !(faltas matches Some(Ok(_))) ==> (r matches Err(e) && falha_de(
                faltas,
                "tabelaFaltas"@,
                e,
            )),
            r matches Ok(p) ==> {
                &&& faltas == Some(Ok::<FaltasTabela, serde_json::Error>(p.faltas))
                &&& p.inicio@ == format_time_spec(parse_time_spec(caso.hora_oco))
                &&& p.prot_sen@ == ou_vazio(caso.prot_sen)
                &&& p.prot_atu@ == ou_vazio(caso.prot_atu)
            },
    {
        let faltas = match faltas {
            None => {
                return Err(TableProcessError::MissingData(MissignFieldError::new("tabelaFaltas")));
            },
            Some(Err(j)) => {
                return Err(TableProcessError::MalformedData(j));
            },
            Some(Ok(t)) => t,
        };
        let inicio = format_time(parse_time(caso.hora_oco));
        let prot_sen = caso.prot_sen.unwrap_or(String::new());
        let prot_atu = caso.prot_atu.unwrap_or(String::new());
        Ok(PrevEqp { faltas, inicio, prot_sen, prot_atu })
    }
}

impl PrevEqp {
    /// The rows of the earlier occurrences of an equipment, in their order,
    /// leaving out the ones whose fault currents are null or malformed.
    pub fn anteriores(pares: Vec<(Ocor, Leitura<FaltasTabela>)>) -> (r: Vec<PrevEqp>)
        requires
            forall|i: int| 0 <= i < pares@.len() ==> #[trigger] anterior_legivel(pares@[i]),
        ensures
            r@.map_values(|p: PrevEqp| p.view()) == anteriores_spec(pares@),
    {
        let ghost orig = pares@;
        let mut r: Vec<PrevEqp> = Vec::new();
        for par in it: pares.into_iter()
            invariant
                it.seq() == orig,
                forall|i: int| 0 <= i < orig.len() ==> #[trigger] anterior_legivel(orig[i]),
                r@.map_values(|p: PrevEqp| p.view()) == anteriores_spec(
                    orig.take(it.index() as int),
                ),
        {
            assert(orig.take(it.index() + 1).drop_last() =~= orig.take(it.index() as int));
            assert(orig.take(it.index() + 1).last() == orig[it.index() as int]);
            assert(anterior_legivel(orig[it.index() as int]));
            let (caso, leitura) = par;
            let ghost antes = r@;
            match PrevEqp::build_from(caso, leitura) {
                Ok(p) => {
                    r.push(p);
                    assert(r@.map_values(|p: PrevEqp| p.view()) =~= antes.map_values(
                        |p: PrevEqp| p.view(),
                    ).push(p.view()));
                },
                Err(_) => {},
            }
            assert(r@.map_values(|p: PrevEqp| p.view()) =~= anteriores_spec(
                orig.take(it.index() + 1),
            ));
        }
        assert(orig.take(orig.len() as int) =~= orig);
        r
    }
}

} // verus!

