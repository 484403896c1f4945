//! The subject and the HTML body of the notification e-mail.
use vstd::prelude::*;

use crate::db::chunks::{
    CondPrePosTabela, FaltasTabela, Leitura, OcorrenciaSoe, PrevEqp, PrevEqpView, TableInfo,
    TextInfo, anterior_legivel, anteriores_spec, falha_das_leituras, format_time,
    format_time_spec, leituras_lidas, parse_time, parse_time_spec, soe_legivel, tabela_de,
};
use crate::db::models::{Ocor, OcorSoe};
use crate::error::TableProcessError;

verus! {

/// The opening of the HTML document, up to the start of its body.
pub const HTMLHEAD: &'static str = "\n<!DOCTYPE html>\n<html lang=\"pt-BR\">\n\t<head>\n\t\t<meta charset=\"UTF-8\">\n\t\t<meta name=\"viewport\" content=\"width=device-width, initial-scale=1.0\">\n\t\t<title>tabela</title>\n\t\t<style>\n\t\t\ttable,td,tr,th{\n\t\t\t\tborder: 1px solid black;\n\t\t\t}\n\t\t\ttd,th{\n\t\t\t\tpadding: 2.5px;\n\t\t\t}\n\t\t\t.titulos{\n\t\t\t\ttext-align: center;\n\t\t\t}\n\t\t</style>\n\t</head>\n\t<body>\n\t";

/// The closing of the HTML document.
pub const HTMLTAIL: &'static str = "\n\t\t</body>\n\t</html>\n\t";

/// The title row of the tables of the occurrence.
pub const HEADROW: &'static str = "\n\t\t\t<tr class=\"titulos\">\n\t\t\t  <td>Hora do Evento</td>\n\t\t\t  <td>Mensagem</td>\n\t\t\t  <td>Hora da Gravação</td>\n\t\t\t  <td>Operador</td>\n\t\t\t</tr>\n";

/// The title row of the table of earlier occurrences.
pub const HEADROWEQP: &'static str = "\n\t\t\t<tr class=\"titulos\">\n\t\t\t  <td>Hora do Evento</td>\n\t\t\t  <td>Correntes de Falta</td>\n\t\t\t  <td>Proto Sen</td>\n\t\t\t  <td>Proto Atu</td>\n\t\t\t</tr>\n";

/// The texts of `partes` with `sep` between each two of them.
pub open spec fn junta(partes: Seq<Seq<char>>, sep: Seq<char>) -> Seq<char>
    decreases partes.len(),
{
    if partes.len() == 0 {
        seq![]
    } else if partes.len() == 1 {
        partes[0]
    } else {
        junta(partes.drop_last(), sep) + sep + partes.last()
    }
}

/// Joins `partes` with `sep` between each two of them.
fn junta_textos(partes: &Vec<String>, sep: &str) -> (r: String)
    ensures
        r@ == junta(partes@.map_values(|p: String| p@), sep@),
{
    let ghost vistas = partes@.map_values(|p: String| p@);
    let mut r = String::new();
    let mut i: usize = 0;
    while i < partes.len()
        invariant
            i <= partes.len(),
            vistas == partes@.map_values(|p: String| p@),
            r@ == junta(vistas.take(i as int), sep@),
        decreases partes.len() - i,
    {
        assert(vistas.take(i + 1).drop_last() =~= vistas.take(i as int));
        if i != 0 {
            r.append(sep);
        }
        r.append(partes[i].as_str());
        i = i + 1;
        assert(r@ =~= junta(vistas.take(i as int), sep@));
    }
    assert(vistas.take(partes.len() as int) =~= vistas);
    r
}

// ------------------------------------------------------------------------
// The header
// ------------------------------------------------------------------------

/// The greeting and the header paragraphs of the e-mail.
pub open spec fn head_spec(txt: TextInfo, empresa: Seq<char>) -> Seq<char> {
    "\n\t\t<p>Prezado Sr(a)</p>\n\t\t<p>Voce está recebendo esta mensagem devido a uma ocorrência no sistema elétrico da empresa "@
        + empresa + ".</p>\n\t\t<p style=\"white-space: pre-line;\">Subestação: "@
        + txt.subestacao@ + "\n\t\t\tModulo: "@ + txt.modulo@ + "\n\t\t\tEquipamento: "@
        + txt.equipamento@ + "\n\t\t</p>\n\t\t<p style=\"white-space:pre;\">Inicio: "@
        + txt.inicio@ + "      Termino: "@ + txt.termino@ + "</p>\n\t\t<p>Duração: "@
        + txt.duracao@ + "</p>"@
}

/// The header paragraphs: the company, where the occurrence happened, when it
/// started and ended and how long it lasted; the duration is written as the
/// text that `TextInfo` holds.
pub fn build_head(txt: &TextInfo, empresa: &str) -> (r: String)
    ensures
        r@ == head_spec(*txt, empresa@),
{
    let mut s = String::from_str(
        "\n\t\t<p>Prezado Sr(a)</p>\n\t\t<p>Voce está recebendo esta mensagem devido a uma ocorrência no sistema elétrico da empresa ",
    );
    s.append(empresa);
    s.append(".</p>\n\t\t<p style=\"white-space: pre-line;\">Subestação: ");
    s.append(txt.subestacao);
    s.append("\n\t\t\tModulo: ");
    s.append(txt.modulo);
    s.append("\n\t\t\tEquipamento: ");
    s.append(txt.equipamento);
    s.append("\n\t\t</p>\n\t\t<p style=\"white-space:pre;\">Inicio: ");
    s.append(txt.inicio.as_str());
    s.append("      Termino: ");
    s.append(txt.termino.as_str());
    s.append("</p>\n\t\t<p>Duração: ");
    s.append(txt.duracao.as_str());
    s.append("</p>");
    s
}

// ------------------------------------------------------------------------
// The table of the occurrence
// ------------------------------------------------------------------------

/// A row of a measurement: start time, label and value, end time.
pub open spec fn linha_spec(ini: Seq<char>, rotulo: Seq<char>, valor: Seq<char>, fim: Seq<char>) -> Seq<
    char,
> {
    "\n\t\t<tr><td>"@ + ini + "</td><td>"@ + rotulo + valor + "</td><td>"@ + fim
        + "</td><td></td></tr>"@
}

fn escreve_linha(ini: &str, rotulo: &str, valor: &str, fim: &str, saida: &mut String)
    ensures
        final(saida)@ == old(saida)@ + linha_spec(ini@, rotulo@, valor@, fim@),
{
    saida.append("\n\t\t<tr><td>");
    saida.append(ini);
    saida.append("</td><td>");
    saida.append(rotulo);
    saida.append(valor);
    saida.append("</td><td>");
    saida.append(fim);
    saida.append("</td><td></td></tr>");
    assert(final(saida)@ =~= old(saida)@ + linha_spec(ini@, rotulo@, valor@, fim@));
}

/// The title of a section of the table, followed by the title row.
pub open spec fn titulo_spec(titulo: Seq<char>) -> Seq<char> {
    "\n\t\t<tr>\n\t\t\t<th colspan=\"4\">"@ + titulo + "</th>\n\t\t</tr>"@ + HEADROW@
}

fn escreve_titulo(titulo: &str, saida: &mut String)
    ensures
        final(saida)@ == old(saida)@ + titulo_spec(titulo@),
{
    saida.append("\n\t\t<tr>\n\t\t\t<th colspan=\"4\">");
    saida.append(titulo);
    saida.append("</th>\n\t\t</tr>");
    saida.append(HEADROW);
    assert(final(saida)@ =~= old(saida)@ + titulo_spec(titulo@));
}

/// A section with the operating condition before or after the occurrence.
pub open spec fn prepos_spec(titulo: Seq<char>, c: CondPrePosTabela, ini: Seq<char>, fim: Seq<char>) -> Seq<
    char,
> {
    titulo_spec(titulo) + linha_spec(ini, "Potência Ativa = "@, c.potencia_ativa@, fim) + linha_spec(
        ini,
        "Correntes na fase A = "@,
        c.fase_a@,
        fim,
    ) + linha_spec(ini, "Correntes na fase B = "@, c.fase_b@, fim) + linha_spec(
        ini,
        "Correntes na fase C = "@,
        c.fase_c@,
        fim,
    ) + linha_spec(ini, "Correntes no Neutro = "@, c.fase_n@, fim)
}

fn escreve_prepos(titulo: &str, c: &CondPrePosTabela, ini: &str, fim: &str, saida: &mut String)
    ensures
        final(saida)@ == old(saida)@ + prepos_spec(titulo@, *c, ini@, fim@),
{
    escreve_titulo(titulo, saida);
    escreve_linha(ini, "Potência Ativa = ", c.potencia_ativa.as_str(), fim, saida);
    escreve_linha(ini, "Correntes na fase A = ", c.fase_a.as_str(), fim, saida);
    escreve_linha(ini, "Correntes na fase B = ", c.fase_b.as_str(), fim, saida);
    escreve_linha(ini, "Correntes na fase C = ", c.fase_c.as_str(), fim, saida);
    escreve_linha(ini, "Correntes no Neutro = ", c.fase_n.as_str(), fim, saida);
    assert(final(saida)@ =~= old(saida)@ + prepos_spec(titulo@, *c, ini@, fim@));
}

/// The section with the fault currents.
pub open spec fn faltas_spec(f: FaltasTabela, ini: Seq<char>, fim: Seq<char>) -> Seq<char> {
    titulo_spec("CORRENTES DE FALTA"@) + linha_spec(
        ini,
        "Correntes de Falta Fase A = "@,
        f.fase_a@,
        fim,
    ) + linha_spec(ini, "Correntes de Falta Fase B = "@, f.fase_b@, fim) + linha_spec(
        ini,
        "Correntes de Falta Fase C = "@,
        f.fase_c@,
        fim,
    ) + linha_spec(ini, "Correntes de Falta Fase Neutro = "@, f.fase_n@, fim)
}

fn escreve_faltas(f: &FaltasTabela, ini: &str, fim: &str, saida: &mut String)
    ensures
        final(saida)@ == old(saida)@ + faltas_spec(*f, ini@, fim@),
{
    escreve_titulo("CORRENTES DE FALTA", saida);
    escreve_linha(ini, "Correntes de Falta Fase A = ", f.fase_a.as_str(), fim, saida);
    escreve_linha(ini, "Correntes de Falta Fase B = ", f.fase_b.as_str(), fim, saida);
    escreve_linha(ini, "Correntes de Falta Fase C = ", f.fase_c.as_str(), fim, saida);
    escreve_linha(ini, "Correntes de Falta Fase Neutro = ", f.fase_n.as_str(), fim, saida);
    assert(final(saida)@ =~= old(saida)@ + faltas_spec(*f, ini@, fim@));
}

/// The row of an event: when it happened, its message, when it was recorded
/// and who acted.
pub open spec fn evento_spec(e: OcorrenciaSoe) -> Seq<char> {
    "<tr><td>"@ + e.hora_inicio@ + "</td><td>"@ + e.mensagem@ + "</td><td>"@ + e.hora_fim@
        + "</td><td>"@ + e.agente@ + "</td></tr>"@
}

fn linha_evento(e: &OcorrenciaSoe) -> (r: String)
    ensures
        r@ == evento_spec(*e),
{
    let mut s = String::from_str("<tr><td>");
    s.append(e.hora_inicio.as_str());
    s.append("</td><td>");
    s.append(e.mensagem.as_str());
    s.append("</td><td>");
    s.append(e.hora_fim.as_str());
    s.append("</td><td>");
    s.append(e.agente.as_str());
    s.append("</td></tr>");
    s
}

/// The section with the events, one row each, in their order.
pub open spec fn eventos_spec(eventos: Seq<OcorrenciaSoe>) -> Seq<char> {
    titulo_spec("EVENTOS"@) + "\n\t\t"@ + junta(eventos.map_values(|e: OcorrenciaSoe| evento_spec(e)), "\n"@)
}

fn escreve_eventos(eventos: &Vec<OcorrenciaSoe>, saida: &mut String)
    ensures
        final(saida)@ == old(saida)@ + eventos_spec(eventos@),
{
    let mut linhas: Vec<String> = Vec::new();
    let mut i: usize = 0;
    while i < eventos.len()
        invariant
            i <= eventos.len(),
            linhas@.len() == i,
            forall|j: int| 0 <= j < i ==> #[trigger] linhas@[j]@ == evento_spec(eventos@[j]),
        decreases eventos.len() - i,
    {
        linhas.push(linha_evento(&eventos[i]));
        i = i + 1;
    }
    assert(linhas@.map_values(|p: String| p@) =~= eventos@.map_values(
        |e: OcorrenciaSoe| evento_spec(e),
    ));
    let corpo = junta_textos(&linhas, "\n");
    escreve_titulo("EVENTOS", saida);
    saida.append("\n\t\t");
    saida.append(corpo.as_str());
    assert(final(saida)@ =~= old(saida)@ + eventos_spec(eventos@));
}

/// The table of the occurrence: the condition before it, the fault currents,
/// the events and the condition after it; each measurement row shows the
/// start and the end of the occurrence.
pub open spec fn table_spec(info: TableInfo, ini: Seq<char>, fim: Seq<char>) -> Seq<char> {
    "<table style=\"width: 1000px;\">\n"@ + prepos_spec(
        "CONDIÇÃO DE OPERAÇÃO DE PRE-OCORRÊNCIA"@,
        info.cond_pre,
        ini,
        fim,
    ) + faltas_spec(info.faltas, ini, fim) + eventos_spec(info.eventos@) + prepos_spec(
        "CONDIÇÃO DE OPERAÇÃO DE POS-OCORRÊNCIA"@,
        info.cond_pos,
        ini,
        fim,
    ) + "\n</table>"@
}

/// The table of an occurrence; each measurement row shows the start and the
/// end of the occurrence as `format_time` writes them (empty for a zero
/// timestamp).
pub fn build_table(info: &TableInfo, caso: &Ocor) -> (r: String)
    requires
        caso.hora_ini.legivel(),
        caso.hora_fim.legivel(),
    ensures
        r@ == table_spec(
            *info,
            format_time_spec(parse_time_spec(caso.hora_ini)),
            format_time_spec(parse_time_spec(caso.hora_fim)),
        ),
{
    let ini = format_time(parse_time(caso.hora_ini));
    let fim = format_time(parse_time(caso.hora_fim));
    let mut s = String::from_str("<table style=\"width: 1000px;\">\n");
    escreve_prepos(
        "CONDIÇÃO DE OPERAÇÃO DE PRE-OCORRÊNCIA",
        &info.cond_pre,
        ini.as_str(),
        fim.as_str(),
        &mut s,
    );
    escreve_faltas(&info.faltas, ini.as_str(), fim.as_str(), &mut s);
    escreve_eventos(&info.eventos, &mut s);
    escreve_prepos(
        "CONDIÇÃO DE OPERAÇÃO DE POS-OCORRÊNCIA",
        &info.cond_pos,
        ini.as_str(),
        fim.as_str(),
        &mut s,
    );
    s.append("\n</table>");
    s
}

// ------------------------------------------------------------------------
// The table of earlier occurrences
// ------------------------------------------------------------------------

/// The row of an earlier occurrence: its start, its fault currents and the
/// protections that sensed and acted.
pub open spec fn eqp_spec(e: PrevEqpView) -> Seq<char> {
    "<tr>\n\t\t\t<td>"@ + e.inicio + "</td>\n\t\t\t<td>A = "@ + e.fase_a + " B = "@ + e.fase_b
        + " C = "@ + e.fase_c + " Neutro = "@ + e.fase_n + "</td>\n\t\t\t<td>"@ + e.prot_sen
        + "</td>\n\t\t\t<td>"@ + e.prot_atu + "</td>\n\t\t\t</tr>"@
}

fn linha_eqp(e: &PrevEqp) -> (r: String)
    ensures
        r@ == eqp_spec(e.view()),
{
    let mut s = String::from_str("<tr>\n\t\t\t<td>");
    s.append(e.inicio.as_str());
    s.append("</td>\n\t\t\t<td>A = ");
    s.append(e.faltas.fase_a.as_str());
    s.append(" B = ");
    s.append(e.faltas.fase_b.as_str());
    s.append(" C = ");
    s.append(e.faltas.fase_c.as_str());
    s.append(" Neutro = ");
    s.append(e.faltas.fase_n.as_str());
    s.append("</td>\n\t\t\t<td>");
    s.append(e.prot_sen.as_str());
    s.append("</td>\n\t\t\t<td>");
    s.append(e.prot_atu.as_str());
    s.append("</td>\n\t\t\t</tr>");
    s
}

/// The table of the earlier occurrences of the equipment, one row each, in
/// their order.
pub open spec fn table_eqp_spec(eqps: Seq<PrevEqpView>) -> Seq<char> {
    "<table style=\"width: 1000px;\">\n<th colspan=\"4\">Falhas Anteriores Deste Equipamento</th>"@
        + HEADROWEQP@ + junta(eqps.map_values(|e: PrevEqpView| eqp_spec(e)), "\n"@) + "\n</table>"@
}

/// The table of the earlier occurrences of the equipment.
pub fn build_table_eqp(eqps: &Vec<PrevEqp>) -> (r: String)
    ensures
        r@ == table_eqp_spec(eqps@.map_values(|e: PrevEqp| e.view())),
{
    let mut linhas: Vec<String> = Vec::new();
    let mut i: usize = 0;
    while i < eqps.len()
        invariant
            i <= eqps.len(),
            linhas@.len() == i,
            forall|j: int| 0 <= j < i ==> #[trigger] linhas@[j]@ == eqp_spec(eqps@[j].view()),
        decreases eqps.len() - i,
    {
        linhas.push(linha_eqp(&eqps[i]));
        i = i + 1;
    }
    assert(linhas@.map_values(|p: String| p@) =~= eqps@.map_values(|e: PrevEqp| e.view()).map_values(
        |e: PrevEqpView| eqp_spec(e),
    ));
    let corpo = junta_textos(&linhas, "\n");
    let mut s = String::from_str(
        "<table style=\"width: 1000px;\">\n<th colspan=\"4\">Falhas Anteriores Deste Equipamento</th>",
    );
    s.append(HEADROWEQP);
    s.append(corpo.as_str());
    s.append("\n</table>");
    s
}

// ------------------------------------------------------------------------
// The message
// ------------------------------------------------------------------------

/// The subject of the e-mail: the type of the occurrence, then where it
/// happened.
pub open spec fn titulo_mensagem_spec(info: TextInfo) -> Seq<char> {
    info.tipo@ + ": "@ + info.subestacao@ + " "@ + info.modulo@ + " "@ + info.equipamento@
}

/// The HTML body of the e-mail: the header, the table of the occurrence and
/// the table of earlier occurrences.
pub open spec fn corpo_mensagem_spec(
    empresa: Seq<char>,
    caso: Ocor,
    info: TextInfo,
    table_info: TableInfo,
    eqps: Seq<PrevEqpView>,
) -> Seq<char> {
    HTMLHEAD@ + head_spec(info, empresa) + table_spec(
        table_info,
        format_time_spec(parse_time_spec(caso.hora_ini)),
        format_time_spec(parse_time_spec(caso.hora_fim)),
    ) + "<br>"@ + table_eqp_spec(eqps) + HTMLTAIL@
}

/// The subject and the HTML body of the e-mail of an occurrence whose tables
/// were built. The table of earlier occurrences shows the ones whose fault
/// currents were read, in their order. The start and end times of the
/// occurrence are written as `format_time` writes them, and the duration as
/// `TextInfo` holds it.
pub fn monta_mensagem(
    empresa: &str,
    caso: &Ocor,
    info: TextInfo,
    table_info: TableInfo,
    eqp: Vec<(Ocor, Leitura<FaltasTabela>)>,
) -> (r: (String, String))
    requires
        caso.hora_ini.legivel(),
        caso.hora_fim.legivel(),
        forall|i: int| 0 <= i < eqp@.len() ==> #[trigger] anterior_legivel(eqp@[i]),
    ensures
        r.0@ == titulo_mensagem_spec(info),
        r.1@ == corpo_mensagem_spec(empresa@, *caso, info, table_info, anteriores_spec(eqp@)),
{
    let equipamentos = PrevEqp::anteriores(eqp);
    let mut title = String::from_str(info.tipo);
    title.append(": ");
    title.append(info.subestacao);
    title.append(" ");
    title.append(info.modulo);
    title.append(" ");
    title.append(info.equipamento);

    let mut body = String::from_str(HTMLHEAD);
    body.append(build_head(&info, empresa).as_str());
    body.append(build_table(&table_info, caso).as_str());
    body.append("<br>");
    body.append(build_table_eqp(&equipamentos).as_str());
    body.append(HTMLTAIL);
    (title, body)
}

/// The subject and the HTML body of the e-mail of an occurrence, from the
/// readings of its JSON columns (condition before, condition after, fault
/// currents), its events and its earlier occurrences. It fails exactly when
/// the tables of the occurrence cannot be built, with the error of the first
/// column that is null or malformed; an earlier occurrence whose fault
/// currents are null or malformed never makes it fail, it is only left out of
/// the table of earlier occurrences.
pub fn build_message(
    empresa: &str,
    caso: &Ocor,
    info: TextInfo,
    cond_pre: Leitura<CondPrePosTabela>,
    cond_pos: Leitura<CondPrePosTabela>,
    faltas: Leitura<FaltasTabela>,
    soe: Vec<OcorSoe>,
    eqp: Vec<(Ocor, Leitura<FaltasTabela>)>,
) -> (r: Result<(String, String), TableProcessError>)
    requires
        caso.hora_ini.legivel(),
        caso.hora_fim.legivel(),
        forall|i: int| 0 <= i < soe@.len() ==> #[trigger] soe_legivel(soe@[i]),
        forall|i: int| 0 <= i < eqp@.len() ==> #[trigger] anterior_legivel(eqp@[i]),
    ensures
        r is Ok <==> leituras_lidas(cond_pre, cond_pos, faltas),
        r matches Err(e) ==> falha_das_leituras(cond_pre, cond_pos, faltas, e),
        r matches Ok(m) ==> {
            &&& m.0@ == titulo_mensagem_spec(info)
            &&& exists|t: TableInfo| #[trigger]
                tabela_de(cond_pre, cond_pos, faltas, soe@, t) && m.1@ == corpo_mensagem_spec(
                    empresa@,
                    *caso,
                    info,
                    t,
                    anteriores_spec(eqp@),
                )
        },
{
    let ghost leituras = (cond_pre, cond_pos, faltas);
    let ghost eventos = soe@;
    let table_info = match TableInfo::build_from(cond_pre, cond_pos, faltas, soe) {
        Ok(t) => t,
        Err(e) => {
            return Err(e);
        },
    };
    let ghost t = table_info;
    assert(tabela_de(leituras.0, leituras.1, leituras.2, eventos, t));
    let m = monta_mensagem(empresa, caso, info, table_info, eqp);
    Ok(m)
}

} // verus!
