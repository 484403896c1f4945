use envio_emails::db::chunks::{CondPrePosTabela, FaltasTabela, Leitura, OcorrenciaSoe, PrevEqp, TableInfo, TextInfo};
use envio_emails::db::models::{MysqlTime, Ocor, OcorSoe};
use envio_emails::error::TableProcessError;
use envio_emails::message_builder::{build_head, build_message, build_table, build_table_eqp, monta_mensagem};

fn ts(year: u32, month: u32, day: u32, hour: u32, minute: u32, second: u32) -> MysqlTime {
    MysqlTime { year, month, day, hour, minute, second, second_part: 0 }
}

fn s(v: &str) -> Option<String> {
    Some(v.to_string())
}

fn caso() -> Ocor {
    Ocor {
        id: 1,
        se: s("SE"),
        al: s("AL"),
        eqp: s("EQP"),
        hora_update: ts(0, 0, 0, 0, 0, 0),
        hora_oco: ts(0, 0, 0, 0, 0, 0),
        hora_ini: ts(2023, 1, 5, 10, 0, 0),
        hora_fim: ts(2023, 1, 5, 11, 30, 15),
        num_relig: None,
        tipo_oco: s("C"),
        prot_sen: None,
        prot_atu: None,
        faltas: None,
        condpre: None,
        condpos: None,
        email_sended: None,
        sms_sended: None,
        id_cause: None,
        modified_by: None,
        cause: None,
        observacao: None,
    }
}

fn cond(pa: &str, a: &str, b: &str, c: &str, n: &str) -> CondPrePosTabela {
    CondPrePosTabela { potencia_ativa: pa.into(), fase_a: a.into(), fase_b: b.into(), fase_c: c.into(), fase_n: n.into() }
}

fn faltas(a: &str, b: &str, c: &str, n: &str) -> FaltasTabela {
    FaltasTabela { fase_a: a.into(), fase_b: b.into(), fase_c: c.into(), fase_n: n.into() }
}

fn evento(msg: &str) -> OcorrenciaSoe {
    OcorrenciaSoe { hora_inicio: String::new(), hora_fim: String::new(), mensagem: msg.into(), agente: String::new() }
}

fn tabela() -> TableInfo {
    TableInfo {
        faltas: faltas("96.5", "8.9", "94.2", "68.5"),
        cond_pre: cond("85.5", "62", "9.4", "22.3", "68.8"),
        cond_pos: cond("12.8", "47.1", "24.2", "26.1", "0.2"),
        eventos: vec![evento("mensagem teste 1 soe"), evento("mensagem teste 2 soe")],
    }
}

fn anteriores() -> Vec<PrevEqp> {
    vec![
        PrevEqp { faltas: faltas("96.5", "8.9", "94.2", "68.5"), inicio: "02-11-2022 03:04:05".into(), prot_sen: "51N".into(), prot_atu: String::new() },
        PrevEqp { faltas: faltas("1", "2", "3", "4"), inicio: String::new(), prot_sen: String::new(), prot_atu: "50".into() },
    ]
}

fn anterior(hora_oco: MysqlTime, faltas_json: Option<&str>, prot_sen: Option<&str>, prot_atu: Option<&str>) -> Ocor {
    let mut o = caso();
    o.hora_oco = hora_oco;
    o.faltas = faltas_json.map(|t| t.to_string());
    o.prot_sen = prot_sen.map(|t| t.to_string());
    o.prot_atu = prot_atu.map(|t| t.to_string());
    o
}

fn erro_json() -> serde_json::Error {
    serde_json::from_str::<serde_json::Value>("{").unwrap_err()
}

/// The earlier occurrences with the readings of their fault currents: two
/// read, one null and one malformed.
fn anteriores_pares() -> Vec<(Ocor, Leitura<FaltasTabela>)> {
    vec![
        (anterior(ts(2022, 11, 2, 3, 4, 5), Some("{}"), Some("51N"), None), Some(Ok(faltas("96.5", "8.9", "94.2", "68.5")))),
        (anterior(ts(0, 0, 0, 0, 0, 0), None, Some("x"), None), None),
        (anterior(ts(0, 0, 0, 0, 0, 0), Some("{"), None, None), Some(Err(erro_json()))),
        (anterior(ts(0, 0, 0, 0, 0, 0), Some("{}"), None, Some("50")), Some(Ok(faltas("1", "2", "3", "4")))),
    ]
}

const TABELA: &str = "<table style=\"width: 1000px;\">\n\n\t\t<tr>\n\t\t\t<th colspan=\"4\">CONDIÇÃO DE OPERAÇÃO DE PRE-OCORRÊNCIA</th>\n\t\t</tr>\n\t\t\t<tr class=\"titulos\">\n\t\t\t  <td>Hora do Evento</td>\n\t\t\t  <td>Mensagem</td>\n\t\t\t  <td>Hora da Gravação</td>\n\t\t\t  <td>Operador</td>\n\t\t\t</tr>\n\n\t\t<tr><td>05-01-2023 10:00:00</td><td>Potência Ativa = 85.5</td><td>05-01-2023 11:30:15</td><td></td></tr>\n\t\t<tr><td>05-01-2023 10:00:00</td><td>Correntes na fase A = 62</td><td>05-01-2023 11:30:15</td><td></td></tr>\n\t\t<tr><td>05-01-2023 10:00:00</td><td>Correntes na fase B = 9.4</td><td>05-01-2023 11:30:15</td><td></td></tr>\n\t\t<tr><td>05-01-2023 10:00:00</td><td>Correntes na fase C = 22.3</td><td>05-01-2023 11:30:15</td><td></td></tr>\n\t\t<tr><td>05-01-2023 10:00:00</td><td>Correntes no Neutro = 68.8</td><td>05-01-2023 11:30:15</td><td></td></tr>\n\t\t<tr>\n\t\t\t<th colspan=\"4\">CORRENTES DE FALTA</th>\n\t\t</tr>\n\t\t\t<tr class=\"titulos\">\n\t\t\t  <td>Hora do Evento</td>\n\t\t\t  <td>Mensagem</td>\n\t\t\t  <td>Hora da Gravação</td>\n\t\t\t  <td>Operador</td>\n\t\t\t</tr>\n\n\t\t<tr><td>05-01-2023 10:00:00</td><td>Correntes de Falta Fase A = 96.5</td><td>05-01-2023 11:30:15</td><td></td></tr>\n\t\t<tr><td>05-01-2023 10:00:00</td><td>Correntes de Falta Fase B = 8.9</td><td>05-01-2023 11:30:15</td><td></td></tr>\n\t\t<tr><td>05-01-2023 10:00:00</td><td>Correntes de Falta Fase C = 94.2</td><td>05-01-2023 11:30:15</td><td></td></tr>\n\t\t<tr><td>05-01-2023 10:00:00</td><td>Correntes de Falta Fase Neutro = 68.5</td><td>05-01-2023 11:30:15</td><td></td></tr>\n\t\t<tr>\n\t\t\t<th colspan=\"4\">EVENTOS</th>\n\t\t</tr>\n\t\t\t<tr class=\"titulos\">\n\t\t\t  <td>Hora do Evento</td>\n\t\t\t  <td>Mensagem</td>\n\t\t\t  <td>Hora da Gravação</td>\n\t\t\t  <td>Operador</td>\n\t\t\t</tr>\n\n\t\t<tr><td></td><td>mensagem teste 1 soe</td><td></td><td></td></tr>\n<tr><td></td><td>mensagem teste 2 soe</td><td></td><td></td></tr>\n\t\t<tr>\n\t\t\t<th colspan=\"4\">CONDIÇÃO DE OPERAÇÃO DE POS-OCORRÊNCIA</th>\n\t\t</tr>\n\t\t\t<tr class=\"titulos\">\n\t\t\t  <td>Hora do Evento</td>\n\t\t\t  <td>Mensagem</td>\n\t\t\t  <td>Hora da Gravação</td>\n\t\t\t  <td>Operador</td>\n\t\t\t</tr>\n\n\t\t<tr><td>05-01-2023 10:00:00</td><td>Potência Ativa = 12.8</td><td>05-01-2023 11:30:15</td><td></td></tr>\n\t\t<tr><td>05-01-2023 10:00:00</td><td>Correntes na fase A = 47.1</td><td>05-01-2023 11:30:15</td><td></td></tr>\n\t\t<tr><td>05-01-2023 10:00:00</td><td>Correntes na fase B = 24.2</td><td>05-01-2023 11:30:15</td><td></td></tr>\n\t\t<tr><td>05-01-2023 10:00:00</td><td>Correntes na fase C = 26.1</td><td>05-01-2023 11:30:15</td><td></td></tr>\n\t\t<tr><td>05-01-2023 10:00:00</td><td>Correntes no Neutro = 0.2</td><td>05-01-2023 11:30:15</td><td></td></tr>\n</table>";
const EQP_VAZIA: &str = "<table style=\"width: 1000px;\">\n<th colspan=\"4\">Falhas Anteriores Deste Equipamento</th>\n\t\t\t<tr class=\"titulos\">\n\t\t\t  <td>Hora do Evento</td>\n\t\t\t  <td>Correntes de Falta</td>\n\t\t\t  <td>Proto Sen</td>\n\t\t\t  <td>Proto Atu</td>\n\t\t\t</tr>\n\n</table>";
const EQP_DUAS: &str = "<table style=\"width: 1000px;\">\n<th colspan=\"4\">Falhas Anteriores Deste Equipamento</th>\n\t\t\t<tr class=\"titulos\">\n\t\t\t  <td>Hora do Evento</td>\n\t\t\t  <td>Correntes de Falta</td>\n\t\t\t  <td>Proto Sen</td>\n\t\t\t  <td>Proto Atu</td>\n\t\t\t</tr>\n<tr>\n\t\t\t<td>02-11-2022 03:04:05</td>\n\t\t\t<td>A = 96.5 B = 8.9 C = 94.2 Neutro = 68.5</td>\n\t\t\t<td>51N</td>\n\t\t\t<td></td>\n\t\t\t</tr>\n<tr>\n\t\t\t<td></td>\n\t\t\t<td>A = 1 B = 2 C = 3 Neutro = 4</td>\n\t\t\t<td></td>\n\t\t\t<td>50</td>\n\t\t\t</tr>\n</table>";
const CABECALHO: &str = "\n\t\t<p>Prezado Sr(a)</p>\n\t\t<p>Voce está recebendo esta mensagem devido a uma ocorrência no sistema elétrico da empresa EMPRESA TESTE.</p>\n\t\t<p style=\"white-space: pre-line;\">Subestação: SE\n\t\t\tModulo: AL\n\t\t\tEquipamento: EQP\n\t\t</p>\n\t\t<p style=\"white-space:pre;\">Inicio: 05-01-2023 10:00:00      Termino: 05-01-2023 11:30:15</p>\n\t\t<p>Duração: 01:30:15,0</p>";
const CORPO: &str = "\n<!DOCTYPE html>\n<html lang=\"pt-BR\">\n\t<head>\n\t\t<meta charset=\"UTF-8\">\n\t\t<meta name=\"viewport\" content=\"width=device-width, initial-scale=1.0\">\n\t\t<title>tabela</title>\n\t\t<style>\n\t\t\ttable,td,tr,th{\n\t\t\t\tborder: 1px solid black;\n\t\t\t}\n\t\t\ttd,th{\n\t\t\t\tpadding: 2.5px;\n\t\t\t}\n\t\t\t.titulos{\n\t\t\t\ttext-align: center;\n\t\t\t}\n\t\t</style>\n\t</head>\n\t<body>\n\t\n\t\t<p>Prezado Sr(a)</p>\n\t\t<p>Voce está recebendo esta mensagem devido a uma ocorrência no sistema elétrico da empresa EMPRESA TESTE.</p>\n\t\t<p style=\"white-space: pre-line;\">Subestação: SE\n\t\t\tModulo: AL\n\t\t\tEquipamento: EQP\n\t\t</p>\n\t\t<p style=\"white-space:pre;\">Inicio: 05-01-2023 10:00:00      Termino: 05-01-2023 11:30:15</p>\n\t\t<p>Duração: 01:30:15,0</p><table style=\"width: 1000px;\">\n\n\t\t<tr>\n\t\t\t<th colspan=\"4\">CONDIÇÃO DE OPERAÇÃO DE PRE-OCORRÊNCIA</th>\n\t\t</tr>\n\t\t\t<tr class=\"titulos\">\n\t\t\t  <td>Hora do Evento</td>\n\t\t\t  <td>Mensagem</td>\n\t\t\t  <td>Hora da Gravação</td>\n\t\t\t  <td>Operador</td>\n\t\t\t</tr>\n\n\t\t<tr><td>05-01-2023 10:00:00</td><td>Potência Ativa = 85.5</td><td>05-01-2023 11:30:15</td><td></td></tr>\n\t\t<tr><td>05-01-2023 10:00:00</td><td>Correntes na fase A = 62</td><td>05-01-2023 11:30:15</td><td></td></tr>\n\t\t<tr><td>05-01-2023 10:00:00</td><td>Correntes na fase B = 9.4</td><td>05-01-2023 11:30:15</td><td></td></tr>\n\t\t<tr><td>05-01-2023 10:00:00</td><td>Correntes na fase C = 22.3</td><td>05-01-2023 11:30:15</td><td></td></tr>\n\t\t<tr><td>05-01-2023 10:00:00</td><td>Correntes no Neutro = 68.8</td><td>05-01-2023 11:30:15</td><td></td></tr>\n\t\t<tr>\n\t\t\t<th colspan=\"4\">CORRENTES DE FALTA</th>\n\t\t</tr>\n\t\t\t<tr class=\"titulos\">\n\t\t\t  <td>Hora do Evento</td>\n\t\t\t  <td>Mensagem</td>\n\t\t\t  <td>Hora da Gravação</td>\n\t\t\t  <td>Operador</td>\n\t\t\t</tr>\n\n\t\t<tr><td>05-01-2023 10:00:00</td><td>Correntes de Falta Fase A = 96.5</td><td>05-01-2023 11:30:15</td><td></td></tr>\n\t\t<tr><td>05-01-2023 10:00:00</td><td>Correntes de Falta Fase B = 8.9</td><td>05-01-2023 11:30:15</td><td></td></tr>\n\t\t<tr><td>05-01-2023 10:00:00</td><td>Correntes de Falta Fase C = 94.2</td><td>05-01-2023 11:30:15</td><td></td></tr>\n\t\t<tr><td>05-01-2023 10:00:00</td><td>Correntes de Falta Fase Neutro = 68.5</td><td>05-01-2023 11:30:15</td><td></td></tr>\n\t\t<tr>\n\t\t\t<th colspan=\"4\">EVENTOS</th>\n\t\t</tr>\n\t\t\t<tr class=\"titulos\">\n\t\t\t  <td>Hora do Evento</td>\n\t\t\t  <td>Mensagem</td>\n\t\t\t  <td>Hora da Gravação</td>\n\t\t\t  <td>Operador</td>\n\t\t\t</tr>\n\n\t\t<tr><td></td><td>mensagem teste 1 soe</td><td></td><td></td></tr>\n<tr><td></td><td>mensagem teste 2 soe</td><td></td><td></td></tr>\n\t\t<tr>\n\t\t\t<th colspan=\"4\">CONDIÇÃO DE OPERAÇÃO DE POS-OCORRÊNCIA</th>\n\t\t</tr>\n\t\t\t<tr class=\"titulos\">\n\t\t\t  <td>Hora do Evento</td>\n\t\t\t  <td>Mensagem</td>\n\t\t\t  <td>Hora da Gravação</td>\n\t\t\t  <td>Operador</td>\n\t\t\t</tr>\n\n\t\t<tr><td>05-01-2023 10:00:00</td><td>Potência Ativa = 12.8</td><td>05-01-2023 11:30:15</td><td></td></tr>\n\t\t<tr><td>05-01-2023 10:00:00</td><td>Correntes na fase A = 47.1</td><td>05-01-2023 11:30:15</td><td></td></tr>\n\t\t<tr><td>05-01-2023 10:00:00</td><td>Correntes na fase B = 24.2</td><td>05-01-2023 11:30:15</td><td></td></tr>\n\t\t<tr><td>05-01-2023 10:00:00</td><td>Correntes na fase C = 26.1</td><td>05-01-2023 11:30:15</td><td></td></tr>\n\t\t<tr><td>05-01-2023 10:00:00</td><td>Correntes no Neutro = 0.2</td><td>05-01-2023 11:30:15</td><td></td></tr>\n</table><br><table style=\"width: 1000px;\">\n<th colspan=\"4\">Falhas Anteriores Deste Equipamento</th>\n\t\t\t<tr class=\"titulos\">\n\t\t\t  <td>Hora do Evento</td>\n\t\t\t  <td>Correntes de Falta</td>\n\t\t\t  <td>Proto Sen</td>\n\t\t\t  <td>Proto Atu</td>\n\t\t\t</tr>\n<tr>\n\t\t\t<td>02-11-2022 03:04:05</td>\n\t\t\t<td>A = 96.5 B = 8.9 C = 94.2 Neutro = 68.5</td>\n\t\t\t<td>51N</td>\n\t\t\t<td></td>\n\t\t\t</tr>\n<tr>\n\t\t\t<td></td>\n\t\t\t<td>A = 1 B = 2 C = 3 Neutro = 4</td>\n\t\t\t<td></td>\n\t\t\t<td>50</td>\n\t\t\t</tr>\n</table>\n\t\t</body>\n\t</html>\n\t";

#[test]
fn table_eqp_without_rows() {
    assert_eq!(build_table_eqp(&vec![]), EQP_VAZIA);
}

#[test]
fn table_eqp_one_row_each() {
    assert_eq!(build_table_eqp(&anteriores()), EQP_DUAS);
}

#[test]
fn head_paragraphs() {
    let c = caso();
    let info = TextInfo::build_from(&c).ok().unwrap();
    assert_eq!(build_head(&info, "EMPRESA TESTE"), CABECALHO);
}

#[test]
fn table_of_the_occurrence() {
    assert_eq!(build_table(&tabela(), &caso()), TABELA);
}

#[test]
fn message_subject_and_body() {
    let c = caso();
    let info = TextInfo::build_from(&c).ok().unwrap();
    let (titulo, corpo) = monta_mensagem("EMPRESA TESTE", &c, info, tabela(), anteriores_pares());
    assert_eq!(titulo, "Comandado: SE AL EQP");
    assert_eq!(corpo, CORPO);
}

#[test]
fn table_without_events_or_times() {
    let mut c = caso();
    c.hora_ini = ts(0, 0, 0, 0, 0, 0);
    let mut t = tabela();
    t.eventos = vec![];
    let r = build_table(&t, &c);
    assert!(r.contains("<tr><td></td><td>Potência Ativa = 85.5</td><td>05-01-2023 11:30:15</td><td></td></tr>"));
    assert!(r.contains("<th colspan=\"4\">EVENTOS</th>\n\t\t</tr>"));
}

fn soe(id: i32, msg: &str) -> OcorSoe {
    OcorSoe {
        id,
        oco_id: None,
        time_stamp: None,
        hora_evento: None,
        complemento: None,
        mensagem: s(msg),
        tipo: None,
        alarme_norm: None,
        actor_id: None,
    }
}

fn eventos() -> Vec<OcorSoe> {
    vec![soe(1, "mensagem teste 1 soe"), soe(2, "mensagem teste 2 soe")]
}

fn cond_pre() -> Leitura<CondPrePosTabela> {
    Some(Ok(cond("85.5", "62", "9.4", "22.3", "68.8")))
}

fn cond_pos() -> Leitura<CondPrePosTabela> {
    Some(Ok(cond("12.8", "47.1", "24.2", "26.1", "0.2")))
}

fn faltas_lidas() -> Leitura<FaltasTabela> {
    Some(Ok(faltas("96.5", "8.9", "94.2", "68.5")))
}

#[test]
fn proper_hmtl() {
    let zero = ts(0, 0, 0, 0, 0, 0);
    let mut c = caso();
    c.hora_ini = zero;
    c.hora_fim = zero;
    c.faltas = s(r#"{"IaF":96.5,"IbF":8.9,"IcF":94.2,"InF":68.5}"#);
    c.condpre = s(r#"{"P":85.5,"Ia":62,"Ib":9.4,"Ic":22.3,"In":68.8}"#);
    c.condpos = s(r#"{"P":12.8,"Ia":47.1,"Ib":24.2,"Ic":26.1,"In":0.2}"#);
    let info = TextInfo::build_from(&c).ok().unwrap();
    assert_eq!(info.inicio, "");
    assert_eq!(info.duracao, "00:00:00");
    let eqp = anterior(zero, Some(r#"{"IaF":96.5,"IbF":8.9,"IcF":94.2,"InF":68.5}"#), None, None);
    let (titulo, html) = build_message(
        "EMPRESA TESTE",
        &c,
        info,
        cond_pre(),
        cond_pos(),
        faltas_lidas(),
        eventos(),
        vec![(eqp, Some(Ok(faltas("96.5", "8.9", "94.2", "68.5"))))],
    )
    .unwrap();
    assert_eq!(titulo, "Comandado: SE AL EQP");
    assert!(html.starts_with("\n<!DOCTYPE html>"));
    assert!(html.contains("da empresa EMPRESA TESTE.</p>"));
    assert!(html.contains("<tr><td></td><td>mensagem teste 1 soe</td><td></td><td></td></tr>\n<tr><td></td><td>mensagem teste 2 soe</td><td></td><td></td></tr>"));
    assert!(html.contains("<td>A = 96.5 B = 8.9 C = 94.2 Neutro = 68.5</td>"));
    assert!(html.ends_with("</body>\n\t</html>\n\t"));
}

#[test]
fn message_from_readings_matches_built_tables() {
    let c = caso();
    let (titulo, corpo) = build_message(
        "EMPRESA TESTE",
        &c,
        TextInfo::build_from(&c).ok().unwrap(),
        cond_pre(),
        cond_pos(),
        faltas_lidas(),
        eventos(),
        anteriores_pares(),
    )
    .unwrap();
    assert_eq!(titulo, "Comandado: SE AL EQP");
    assert_eq!(corpo, CORPO);
}

fn campo_faltando(r: Result<(String, String), TableProcessError>) -> String {
    match r {
        Err(TableProcessError::MissingData(e)) => e.0,
        _ => panic!("expected a missing field"),
    }
}

#[test]
fn message_fails_where_the_tables_fail() {
    let c = caso();
    let info = || TextInfo::build_from(&c).ok().unwrap();
    let r = build_message("E", &c, info(), None, cond_pos(), faltas_lidas(), eventos(), vec![]);
    assert_eq!(campo_faltando(r), "condPre");
    let r = build_message("E", &c, info(), cond_pre(), None, None, eventos(), vec![]);
    assert_eq!(campo_faltando(r), "condPós");
    let r = build_message("E", &c, info(), cond_pre(), cond_pos(), None, eventos(), vec![]);
    assert_eq!(campo_faltando(r), "tabelaFaltas");
    let r = build_message("E", &c, info(), cond_pre(), Some(Err(erro_json())), None, eventos(), vec![]);
    assert!(matches!(r, Err(TableProcessError::MalformedData(_))));
}

#[test]
fn unreadable_earlier_occurrences_do_not_fail_the_message() {
    let c = caso();
    let pares = vec![
        (anterior(ts(0, 0, 0, 0, 0, 0), None, None, None), None),
        (anterior(ts(0, 0, 0, 0, 0, 0), Some("{"), None, None), Some(Err(erro_json()))),
    ];
    let (_, corpo) = build_message(
        "E",
        &c,
        TextInfo::build_from(&c).ok().unwrap(),
        cond_pre(),
        cond_pos(),
        faltas_lidas(),
        eventos(),
        pares,
    )
    .unwrap();
    assert!(corpo.contains(EQP_VAZIA));
}

#[test]
fn error_messages() {
    let faltando = TableProcessError::MissingData(envio_emails::error::MissignFieldError::new("condPre"));
    assert_eq!(faltando.mensagem(), "Missing field condPre");
    let json = TableProcessError::MalformedData(erro_json());
    assert_eq!(json.mensagem(), format!("Failed to parse data to Json:\n\t{}", erro_json()));
    let endereco_erro = || "sem-arroba".parse::<lettre::Address>().unwrap_err();
    let endereco = TableProcessError::EmailParseError(endereco_erro());
    assert_eq!(endereco.mensagem(), format!("Email Adress is malformed:\n\t{}", endereco_erro()));
}

#[test]
fn earlier_occurrences_keep_only_read_rows() {
    let linhas = PrevEqp::anteriores(anteriores_pares());
    assert_eq!(linhas.len(), 2);
    assert_eq!(linhas[0].inicio, "02-11-2022 03:04:05");
    assert_eq!(linhas[0].prot_sen, "51N");
    assert_eq!(linhas[1].prot_atu, "50");
    assert_eq!(build_table_eqp(&linhas), EQP_DUAS);
}
