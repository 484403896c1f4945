//! Properties of the texts of the e-mails that hold for every input.
use vstd::prelude::*;

use crate::db::chunks::{
    OcorrenciaSoe, PrevEqpView, TableInfo, TextInfo, duracao_spec, evento_de, format_time_spec,
    fracao_texto, hora_texto, ou_vazio, parse_time_spec, segundos_entre,
};
use crate::db::models::{DataHora, MysqlTime, Ocor, OcorSoe, ano_com_sinal};
use crate::formatacao::{digit_char, digitos, dois_digitos, inteiro_texto};
use crate::message_builder::{
    HTMLHEAD, HTMLTAIL, corpo_mensagem_spec, evento_spec, head_spec, table_eqp_spec, table_spec,
    titulo_mensagem_spec,
};
use crate::processo::empresas_spec;
use crate::templating::titulo_template_spec;

verus! {

proof fn lema_envolto(h: Seq<char>, a: Seq<char>, b: Seq<char>, c: Seq<char>, d: Seq<char>, t: Seq<
    char,
>)
    ensures
        ({
            let s = h + a + b + c + d + t;
            &&& s.len() >= h.len() + t.len()
            &&& s.subrange(0, h.len() as int) == h
            &&& s.subrange(s.len() - t.len(), s.len() as int) == t
        }),
{
    let s = h + a + b + c + d + t;
    assert(s.subrange(0, h.len() as int) =~= h);
    assert(s.subrange(s.len() - t.len(), s.len() as int) =~= t);
}

/// Every e-mail body is a whole HTML document: it starts with the opening of
/// the document and ends with its closing, whatever the occurrence.
pub proof fn lei_corpo_e_documento_html(
    empresa: Seq<char>,
    caso: Ocor,
    info: TextInfo,
    table_info: TableInfo,
    eqps: Seq<PrevEqpView>,
)
    ensures
        ({
            let corpo = corpo_mensagem_spec(empresa, caso, info, table_info, eqps);
            &&& corpo.len() >= HTMLHEAD@.len() + HTMLTAIL@.len()
            &&& corpo.subrange(0, HTMLHEAD@.len() as int) == HTMLHEAD@
            &&& corpo.subrange(corpo.len() - HTMLTAIL@.len(), corpo.len() as int) == HTMLTAIL@
        }),
{
    lema_envolto(
        HTMLHEAD@,
        head_spec(info, empresa),
        table_spec(
            table_info,
            format_time_spec(parse_time_spec(caso.hora_ini)),
            format_time_spec(parse_time_spec(caso.hora_fim)),
        ),
        "<br>"@,
        table_eqp_spec(eqps),
        HTMLTAIL@,
    );
}

proof fn lema_digitos_pequenos(n: nat)
    ensures
        n < 10 ==> digitos(n).len() == 1,
        10 <= n < 100 ==> digitos(n).len() == 2,
        100 <= n < 1000 ==> digitos(n).len() == 3,
        1000 <= n < 10000 ==> digitos(n).len() == 4,
    decreases n,
{
    if n >= 10 {
        lema_digitos_pequenos(n / 10);
    }
}

proof fn lema_dois_digitos(n: nat)
    requires
        n < 100,
    ensures
        dois_digitos(n).len() == 2,
{
    lema_digitos_pequenos(n);
}

/// A date and time of a four-digit year, in whole seconds, is written in the
/// fixed layout `DD-MM-YYYY HH:MM:SS`: nineteen characters with the
/// separators in their places.
pub proof fn lei_data_formatada(d: DataHora)
    requires
        d.valida(),
        1000 <= d.ano <= 9999,
        d.nanossegundo == 0,
    ensures
        ({
            let t = format_time_spec(Some(d));
            &&& t.len() == 19
            &&& t[2] == '-'
            &&& t[5] == '-'
            &&& t[10] == ' '
            &&& t[13] == ':'
            &&& t[16] == ':'
        }),
{
    lema_dois_digitos(d.dia as nat);
    lema_dois_digitos(d.mes as nat);
    lema_dois_digitos(d.hora as nat);
    lema_dois_digitos(d.minuto as nat);
    lema_dois_digitos(d.segundo as nat);
    lema_digitos_pequenos(d.ano as nat);
    assert(fracao_texto(0) =~= Seq::<char>::empty());
    assert(inteiro_texto(d.ano as int) == digitos(d.ano as nat));
    let h = hora_texto(d.hora as nat, d.minuto as nat, d.segundo as nat, 0);
    assert(h =~= dois_digitos(d.hora as nat) + seq![':'] + dois_digitos(d.minuto as nat) + seq![
        ':',
    ] + dois_digitos(d.segundo as nat));
    let t = format_time_spec(Some(d));
    assert(t =~= dois_digitos(d.dia as nat) + seq!['-'] + dois_digitos(d.mes as nat) + seq!['-']
        + digitos(d.ano as nat) + seq![' '] + h);
}

/// The two characters of a number below one hundred: its tens digit, then
/// its units digit.
proof fn lema_dois_digitos_caracteres(n: nat)
    requires
        n < 100,
    ensures
        dois_digitos(n) == seq![digit_char((n / 10) as int), digit_char((n % 10) as int)],
{
    reveal_with_fuel(digitos, 2);
    if n < 10 {
        assert(dois_digitos(n) =~= seq![digit_char((n / 10) as int), digit_char((n % 10) as int)]);
    } else {
        assert(digitos(n / 10) == seq![digit_char((n / 10) as int)]);
        assert(dois_digitos(n) =~= seq![digit_char((n / 10) as int), digit_char((n % 10) as int)]);
    }
}

/// The four characters of a four-digit year, most significant first.
proof fn lema_quatro_digitos(n: nat)
    requires
        1000 <= n <= 9999,
    ensures
        inteiro_texto(n as int) == seq![
            digit_char((n / 1000) as int),
            digit_char(((n / 100) % 10) as int),
            digit_char(((n / 10) % 10) as int),
            digit_char((n % 10) as int),
        ],
{
    reveal_with_fuel(digitos, 4);
    assert(n / 10 / 10 == n / 100);
    assert(n / 10 / 10 / 10 == n / 1000);
    assert((n / 10) % 10 < 10);
    assert(inteiro_texto(n as int) =~= seq![
        digit_char((n / 1000) as int),
        digit_char(((n / 100) % 10) as int),
        digit_char(((n / 10) % 10) as int),
        digit_char((n % 10) as int),
    ]);
}

/// The duration text of an occurrence depends only on the times of day of
/// its start and end: whole days drop out. It is the time of day reached
/// from midnight by the seconds from the start's time of day to the end's,
/// counted back from midnight when the end's time of day comes first, as
/// `HH:MM:SS` followed by `,0`. From 10:45:00 to 11:15:00 it is `00:30:00,0`,
/// whatever the dates.
pub proof fn lei_duracao_pelos_relogios(ini: DataHora, fim: DataHora)
    ensures
        ({
            let de = ini.hora * 3600 + ini.minuto * 60 + ini.segundo;
            let ate = fim.hora * 3600 + fim.minuto * 60 + fim.segundo;
            let d = (ate - de) % 86400;
            let h = d / 3600;
            let m = (d / 60) % 60;
            let s = d % 60;
            duracao_spec(Some(ini), Some(fim)) == seq![
                digit_char(h / 10),
                digit_char(h % 10),
                ':',
                digit_char(m / 10),
                digit_char(m % 10),
                ':',
                digit_char(s / 10),
                digit_char(s % 10),
                ',',
                '0',
            ]
        }),
{
    let de = ini.hora * 3600 + ini.minuto * 60 + ini.segundo;
    let ate = fim.hora * 3600 + fim.minuto * 60 + fim.segundo;
    let dias = numero_dias(fim) - numero_dias(ini);
    assert(segundos_entre(ini, fim) == 86400 * dias + (ate - de));
    vstd::arithmetic::div_mod::lemma_mod_multiples_vanish(dias, ate - de, 86400);
    let d = (ate - de) % 86400;
    assert(segundos_entre(ini, fim) % 86400 == d);
    let h = d / 3600;
    let m = (d / 60) % 60;
    let s = d % 60;
    assert(0 <= h < 24);
    lema_dois_digitos_caracteres(h as nat);
    lema_dois_digitos_caracteres(m as nat);
    lema_dois_digitos_caracteres(s as nat);
    assert(fracao_texto(0) =~= Seq::<char>::empty());
    assert(duracao_spec(Some(ini), Some(fim)) =~= seq![
        digit_char(h / 10),
        digit_char(h % 10),
        ':',
        digit_char(m / 10),
        digit_char(m % 10),
        ':',
        digit_char(s / 10),
        digit_char(s % 10),
        ',',
        '0',
    ]);
}

spec fn numero_dias(t: DataHora) -> int {
    crate::db::chunks::numero_do_dia(t.ano as int, t.mes as int, t.dia as int)
}

/// Reading a timestamp column keeps its calendar fields: the zero timestamp
/// reads as nothing, any other as the date and time with the same year,
/// month, day, hour, minute and second, in whole seconds.
pub proof fn lei_leitura_mantem_campos(t: MysqlTime)
    ensures
        t.zerado() ==> parse_time_spec(t) is None,
        !t.zerado() ==> (parse_time_spec(t) matches Some(d) && d.ano == ano_com_sinal(t.year)
            && d.mes == t.month && d.dia == t.day && d.hora == t.hour && d.minuto == t.minute
            && d.segundo == t.second && d.nanossegundo == 0),
{
}

/// A valid timestamp of a four-digit year is written back with the digits of
/// its own fields, as `DD-MM-YYYY HH:MM:SS`: an afternoon hour stays an
/// afternoon hour.
pub proof fn lei_hora_lida_e_escrita(t: MysqlTime)
    requires
        !t.zerado(),
        t.valido(),
        1000 <= t.year <= 9999,
    ensures
        format_time_spec(parse_time_spec(t)) == seq![
            digit_char((t.day / 10) as int),
            digit_char((t.day % 10) as int),
            '-',
            digit_char((t.month / 10) as int),
            digit_char((t.month % 10) as int),
            '-',
            digit_char((t.year / 1000) as int),
            digit_char(((t.year / 100) % 10) as int),
            digit_char(((t.year / 10) % 10) as int),
            digit_char((t.year % 10) as int),
            ' ',
            digit_char((t.hour / 10) as int),
            digit_char((t.hour % 10) as int),
            ':',
            digit_char((t.minute / 10) as int),
            digit_char((t.minute % 10) as int),
            ':',
            digit_char((t.second / 10) as int),
            digit_char((t.second % 10) as int),
        ],
{
    let d = parse_time_spec(t)->0;
    assert(ano_com_sinal(t.year) == t.year as int);
    assert(d.ano as int == t.year as int);
    assert(d.dia == t.day && d.mes == t.month && d.hora == t.hour && d.minuto == t.minute
        && d.segundo == t.second && d.nanossegundo == 0);
    let dd = dois_digitos(t.day as nat);
    let mm = dois_digitos(t.month as nat);
    let aaaa = inteiro_texto(t.year as int);
    let hh = dois_digitos(t.hour as nat);
    let mi = dois_digitos(t.minute as nat);
    let ss = dois_digitos(t.second as nat);
    lema_dois_digitos_caracteres(t.day as nat);
    lema_dois_digitos_caracteres(t.month as nat);
    lema_dois_digitos_caracteres(t.hour as nat);
    lema_dois_digitos_caracteres(t.minute as nat);
    lema_dois_digitos_caracteres(t.second as nat);
    lema_quatro_digitos(t.year as nat);
    assert(fracao_texto(0) =~= Seq::<char>::empty());
    assert(hora_texto(d.hora as nat, d.minuto as nat, d.segundo as nat, d.nanossegundo as nat)
        == hh + seq![':'] + mi + seq![':'] + ss);
    assert(format_time_spec(parse_time_spec(t)) == dd + seq!['-'] + mm + seq!['-'] + aaaa + seq![
        ' ',
    ] + (hh + seq![':'] + mi + seq![':'] + ss));
    assert(format_time_spec(parse_time_spec(t)) =~= seq![
        digit_char((t.day / 10) as int),
        digit_char((t.day % 10) as int),
        '-',
        digit_char((t.month / 10) as int),
        digit_char((t.month % 10) as int),
        '-',
        digit_char((t.year / 1000) as int),
        digit_char(((t.year / 100) % 10) as int),
        digit_char(((t.year / 10) % 10) as int),
        digit_char((t.year % 10) as int),
        ' ',
        digit_char((t.hour / 10) as int),
        digit_char((t.hour % 10) as int),
        ':',
        digit_char((t.minute / 10) as int),
        digit_char((t.minute % 10) as int),
        ':',
        digit_char((t.second / 10) as int),
        digit_char((t.second % 10) as int),
    ]);
}

/// The row of an event in the table of the occurrence has, in its four cells
/// in order, when the event happened, its message, when it was recorded and
/// who acted, as the title row announces them.
pub proof fn lei_celulas_do_evento(s: OcorSoe, e: OcorrenciaSoe)
    requires
        evento_de(s, e),
    ensures
        evento_spec(e) == "<tr><td>"@ + format_time_spec(s.hora_evento) + "</td><td>"@ + ou_vazio(
            s.mensagem,
        ) + "</td><td>"@ + format_time_spec(s.time_stamp) + "</td><td>"@ + ou_vazio(s.actor_id)
            + "</td></tr>"@,
{
}

/// The subject of the templated e-mail is the type, a colon, then the
/// substation, the bay and the equipment separated by single spaces: it ends
/// with the equipment's name, and it is the subject of the HTML e-mail
/// without the space after the colon.
pub proof fn lei_titulo_do_template(info: TextInfo)
    ensures
        ({
            let t = titulo_template_spec(info);
            &&& t.len() == info.tipo@.len() + info.subestacao@.len() + info.modulo@.len()
                + info.equipamento@.len() + 3
            &&& t.subrange(0, info.tipo@.len() as int) == info.tipo@
            &&& t[info.tipo@.len() as int] == ':'
            &&& t.subrange(t.len() - info.equipamento@.len(), t.len() as int) == info.equipamento@
            &&& titulo_mensagem_spec(info) == info.tipo@ + seq![':', ' '] + t.subrange(
                info.tipo@.len() + 1 as int,
                t.len() as int,
            )
        }),
{
    reveal_strlit(":");
    reveal_strlit(" ");
    reveal_strlit(": ");
    let t = titulo_template_spec(info);
    let resto = info.subestacao@ + " "@ + info.modulo@ + " "@ + info.equipamento@;
    assert(t =~= info.tipo@ + seq![':'] + resto);
    assert(t.subrange(0, info.tipo@.len() as int) =~= info.tipo@);
    assert(t.subrange(t.len() - info.equipamento@.len(), t.len() as int) =~= info.equipamento@);
    assert(t.subrange(info.tipo@.len() + 1 as int, t.len() as int) =~= resto);
    assert(titulo_mensagem_spec(info) =~= info.tipo@ + seq![':', ' '] + resto);
}

/// The name of a registry entry, if it has one.
pub open spec fn nome_da_entrada(o: Option<String>) -> Option<Seq<char>> {
    match o {
        Some(e) => Some(e@),
        None => None,
    }
}

/// The companies to process are exactly the named entries of the registry,
/// in their order: every named entry is there, nothing else is, and empty
/// entries are skipped.
pub proof fn lei_empresas_sao_as_nomeadas(empresas: Seq<Option<String>>)
    ensures
        empresas_spec(empresas) == empresas.filter_map(|o: Option<String>| nome_da_entrada(o)),
        forall|i: int|
            0 <= i < empresas.len() && #[trigger] nome_da_entrada(empresas[i]) is Some
                ==> empresas_spec(empresas).contains(nome_da_entrada(empresas[i])->0),
        forall|j: int|
            #![trigger empresas_spec(empresas)[j]]
            0 <= j < empresas_spec(empresas).len() ==> exists|i: int|
                0 <= i < empresas.len() && #[trigger] nome_da_entrada(empresas[i]) == Some(
                    empresas_spec(empresas)[j],
                ),
    decreases empresas.len(),
{
    if empresas.len() > 0 {
        let resto = empresas.drop_last();
        lei_empresas_sao_as_nomeadas(resto);
        let r = empresas_spec(empresas);
        let rr = empresas_spec(resto);
        let ultimo = empresas.len() - 1;
        assert(empresas.last() == empresas[ultimo]);
        assert(r == match nome_da_entrada(empresas[ultimo]) {
            Some(n) => rr.push(n),
            None => rr,
        });
        assert(empresas.filter_map(|o: Option<String>| nome_da_entrada(o)) =~= match empresas.last() {
            Some(e) => rr + seq![e@],
            None => rr,
        });
        assert forall|i: int|
            0 <= i < empresas.len() && #[trigger] nome_da_entrada(empresas[i]) is Some implies r.contains(
            nome_da_entrada(empresas[i])->0,
        ) by {
            if i < ultimo {
                assert(resto[i] == empresas[i]);
                assert(nome_da_entrada(resto[i]) is Some);
                let k = choose|k: int| 0 <= k < rr.len() && rr[k] == nome_da_entrada(empresas[i])->0;
                assert(r[k] == rr[k]);
            } else {
                assert(r[r.len() - 1] == nome_da_entrada(empresas[i])->0);
            }
        }
        assert forall|j: int| #![trigger r[j]] 0 <= j < r.len() implies exists|i: int|
            0 <= i < empresas.len() && #[trigger] nome_da_entrada(empresas[i]) == Some(r[j]) by {
            if j < rr.len() {
                assert(r[j] == rr[j]);
                let i = choose|i: int|
                    0 <= i < resto.len() && #[trigger] nome_da_entrada(resto[i]) == Some(rr[j]);
                assert(empresas[i] == resto[i]);
                assert(nome_da_entrada(empresas[i]) == Some(r[j]));
            } else {
                assert(nome_da_entrada(empresas[ultimo]) == Some(r[j]));
            }
        }
    }
}

} // verus!
