use chrono::{Datelike, Timelike};
use envio_emails::db::chunks::{
    duracao_texto, format_time, parse_time, CondPrePosTabela, FaltasTabela, OcorrenciaSoe, PrevEqp,
    TableInfo, TextInfo,
};
use envio_emails::db::models::{DataHora, MysqlTime, Ocor, OcorSoe};
use envio_emails::error::TableProcessError;

fn ts(year: u32, month: u32, day: u32, hour: u32, minute: u32, second: u32) -> MysqlTime {
    MysqlTime { year, month, day, hour, minute, second, second_part: 0 }
}

fn zero() -> MysqlTime {
    ts(0, 0, 0, 0, 0, 0)
}

fn dh(ano: i32, mes: u32, dia: u32, hora: u32, minuto: u32, segundo: u32, nano: u32) -> DataHora {
    DataHora { ano, mes, dia, hora, minuto, segundo, nanossegundo: nano }
}

fn s(v: &str) -> Option<String> {
    Some(v.to_string())
}

pub fn caso(ini: MysqlTime, fim: MysqlTime) -> Ocor {
    Ocor {
        id: 1,
        se: s("SE"),
        al: s("AL"),
        eqp: s("EQP"),
        hora_update: zero(),
        hora_oco: zero(),
        hora_ini: ini,
        hora_fim: fim,
        num_relig: None,
        tipo_oco: s("C"),
        prot_sen: None,
        prot_atu: None,
        faltas: None,
        condpre: None,
        condpos: None,
        email_sended: None,
        sms_sended: None,
        id_cause: None,
        modified_by: None,
        cause: None,
        observacao: None,
    }
}

#[test]
fn parse_time_zero_is_none() {
    assert!(parse_time(zero()).is_none());
}

#[test]
fn parse_time_reads_the_fields() {
    let d = parse_time(ts(2023, 1, 5, 7, 8, 9)).unwrap();
    assert_eq!((d.ano, d.mes, d.dia, d.hora, d.minuto, d.segundo, d.nanossegundo), (2023, 1, 5, 7, 8, 9, 0));
    let d = parse_time(ts(0xFFFF_FFFF, 3, 1, 0, 0, 0)).unwrap();
    assert_eq!(d.ano, -1);
}

#[test]
fn format_time_pads_day_month_and_time() {
    assert_eq!(format_time(Some(dh(2023, 1, 5, 7, 8, 9, 0))), "05-01-2023 07:08:09");
    assert_eq!(format_time(Some(dh(1999, 12, 31, 23, 59, 0, 0))), "31-12-1999 23:59:00");
    assert_eq!(format_time(None), "");
}

#[test]
fn format_time_negative_and_short_years() {
    assert_eq!(format_time(Some(dh(-44, 3, 15, 12, 0, 0, 0))), "15-03--44 12:00:00");
    assert_eq!(format_time(Some(dh(7, 3, 15, 12, 0, 0, 0))), "15-03-7 12:00:00");
}

#[test]
fn format_time_fractions() {
    assert_eq!(format_time(Some(dh(2020, 2, 29, 1, 2, 3, 5_000_000))), "29-02-2020 01:02:03.005");
    assert_eq!(format_time(Some(dh(2020, 2, 29, 1, 2, 3, 12_000))), "29-02-2020 01:02:03.000012");
    assert_eq!(format_time(Some(dh(2020, 2, 29, 1, 2, 3, 1_234))), "29-02-2020 01:02:03.000001234");
    assert_eq!(format_time(Some(dh(2020, 2, 29, 23, 59, 59, 1_500_000_000))), "29-02-2020 23:59:60.500");
}

#[test]
fn format_time_agrees_with_chrono() {
    let t = chrono::NaiveDate::from_ymd_opt(2021, 7, 4).unwrap().and_hms_nano_opt(6, 5, 4, 120_000_000).unwrap();
    let esperado = format!("{:0>2}-{:0>2}-{} {}", t.day(), t.month(), t.year(), t.time());
    let d = dh(t.year(), t.month(), t.day(), t.hour(), t.minute(), t.second(), t.nanosecond());
    assert_eq!(format_time(Some(d)), esperado);
}

#[test]
fn duration_same_day() {
    let r = duracao_texto(Some(dh(2023, 1, 5, 10, 0, 0, 0)), Some(dh(2023, 1, 5, 11, 30, 15, 0)));
    assert_eq!(r, "01:30:15,0");
}

#[test]
fn duration_drops_whole_days() {
    let r = duracao_texto(Some(dh(2023, 12, 31, 23, 0, 0, 0)), Some(dh(2024, 1, 2, 1, 0, 0, 0)));
    assert_eq!(r, "02:00:00,0");
}

#[test]
fn duration_negative_counts_back_from_midnight() {
    let r = duracao_texto(Some(dh(2023, 1, 5, 11, 0, 0, 0)), Some(dh(2023, 1, 5, 10, 0, 0, 0)));
    assert_eq!(r, "23:00:00,0");
}

#[test]
fn duration_zero_and_missing() {
    let d = dh(2023, 3, 1, 8, 0, 0, 0);
    assert_eq!(duracao_texto(Some(d), Some(d)), "00:00:00,0");
    assert_eq!(duracao_texto(Some(d), None), "00:00:00");
    assert_eq!(duracao_texto(None, Some(d)), "00:00:00");
}

#[test]
fn text_info_of_a_complete_occurrence() {
    let c = caso(ts(2023, 1, 5, 10, 0, 0), ts(2023, 1, 5, 11, 30, 15));
    let t = TextInfo::build_from(&c).ok().unwrap();
    assert_eq!(t.tipo, "Comandado");
    assert_eq!((t.subestacao, t.modulo, t.equipamento), ("SE", "AL", "EQP"));
    assert_eq!(t.inicio, "05-01-2023 10:00:00");
    assert_eq!(t.termino, "05-01-2023 11:30:15");
    assert_eq!(t.duracao, "01:30:15,0");
}

#[test]
fn text_info_type_names() {
    for (codigo, nome) in [("C", "Comandado"), ("R", "Religamento"), ("L", "LockOut"), ("N", "Normalizou")] {
        let mut c = caso(zero(), zero());
        c.tipo_oco = s(codigo);
        assert_eq!(TextInfo::build_from(&c).ok().unwrap().tipo, nome);
    }
}

#[test]
fn text_info_without_times() {
    let c = caso(zero(), zero());
    let t = TextInfo::build_from(&c).ok().unwrap();
    assert_eq!(t.inicio, "");
    assert_eq!(t.termino, "");
    assert_eq!(t.duracao, "00:00:00");
}

fn erro(c: &Ocor) -> String {
    match TextInfo::build_from(c) {
        Err(TableProcessError::MissingData(e)) => e.0,
        _ => panic!("esperava erro"),
    }
}

#[test]
fn text_info_errors_in_order() {
    let mut c = caso(zero(), zero());
    c.tipo_oco = None;
    c.se = None;
    assert_eq!(erro(&c), "Tipo de Ocorrencia");
    c.tipo_oco = s("X");
    assert_eq!(erro(&c), "Tipo X não é válido");
    c.tipo_oco = s("CC");
    assert_eq!(erro(&c), "Tipo CC não é válido");
    c.tipo_oco = s("R");
    assert_eq!(erro(&c), "SE");
    c.se = s("SE");
    c.al = None;
    c.eqp = None;
    assert_eq!(erro(&c), "AL");
    c.al = s("AL");
    assert_eq!(erro(&c), "EQP");
}

#[test]
fn ocorrencia_soe_row() {
    let soe = OcorSoe {
        id: 3,
        oco_id: Some(1),
        time_stamp: Some(dh(2023, 1, 5, 10, 0, 1, 0)),
        hora_evento: Some(dh(2023, 1, 5, 10, 0, 0, 250_000_000)),
        complemento: None,
        mensagem: s("disjuntor aberto"),
        tipo: None,
        alarme_norm: None,
        actor_id: None,
    };
    let e = OcorrenciaSoe::build_from(soe);
    assert_eq!(e.hora_inicio, "05-01-2023 10:00:00.250");
    assert_eq!(e.hora_fim, "05-01-2023 10:00:01");
    assert_eq!(e.mensagem, "disjuntor aberto");
    assert_eq!(e.agente, "");
}

fn faltas(v: &str) -> FaltasTabela {
    FaltasTabela { fase_a: v.into(), fase_b: v.into(), fase_c: v.into(), fase_n: v.into() }
}

fn cond(v: &str) -> CondPrePosTabela {
    CondPrePosTabela { potencia_ativa: v.into(), fase_a: v.into(), fase_b: v.into(), fase_c: v.into(), fase_n: v.into() }
}

fn erro_json() -> serde_json::Error {
    serde_json::from_str::<serde_json::Value>("{").unwrap_err()
}

fn vazio_soe(id: i32, msg: &str) -> OcorSoe {
    OcorSoe {
        id,
        oco_id: None,
        time_stamp: None,
        hora_evento: None,
        complemento: None,
        mensagem: s(msg),
        tipo: None,
        alarme_norm: None,
        actor_id: s("op"),
    }
}

#[test]
fn table_info_keeps_tables_and_events() {
    let soe = vec![vazio_soe(1, "um"), vazio_soe(2, "dois")];
    let t = TableInfo::build_from(Some(Ok(cond("1"))), Some(Ok(cond("2"))), Some(Ok(faltas("3"))), soe)
        .ok()
        .unwrap();
    assert_eq!(t.cond_pre.potencia_ativa, "1");
    assert_eq!(t.cond_pos.fase_n, "2");
    assert_eq!(t.faltas.fase_c, "3");
    assert_eq!(t.eventos.len(), 2);
    assert_eq!(t.eventos[0].mensagem, "um");
    assert_eq!(t.eventos[1].mensagem, "dois");
    assert_eq!(t.eventos[1].agente, "op");
}

fn faltando(r: Result<TableInfo, TableProcessError>) -> String {
    match r {
        Err(TableProcessError::MissingData(e)) => e.0,
        _ => panic!("esperava MissingData"),
    }
}

#[test]
fn table_info_first_missing_or_malformed_column() {
    assert_eq!(faltando(TableInfo::build_from(None, None, None, vec![])), "condPre");
    assert_eq!(faltando(TableInfo::build_from(Some(Ok(cond("1"))), None, None, vec![])), "condPós");
    assert_eq!(
        faltando(TableInfo::build_from(Some(Ok(cond("1"))), Some(Ok(cond("1"))), None, vec![])),
        "tabelaFaltas"
    );
    let r = TableInfo::build_from(Some(Err(erro_json())), None, None, vec![]);
    assert!(matches!(r, Err(TableProcessError::MalformedData(_))));
    let r = TableInfo::build_from(Some(Ok(cond("1"))), Some(Err(erro_json())), None, vec![]);
    assert!(matches!(r, Err(TableProcessError::MalformedData(_))));
    let r = TableInfo::build_from(Some(Ok(cond("1"))), Some(Ok(cond("1"))), Some(Err(erro_json())), vec![]);
    assert!(matches!(r, Err(TableProcessError::MalformedData(_))));
}

#[test]
fn prev_eqp_row() {
    let mut c = caso(zero(), zero());
    c.hora_oco = ts(2022, 11, 2, 3, 4, 5);
    c.faltas = s("{}");
    c.prot_sen = s("51N");
    let p = PrevEqp::build_from(c, Some(Ok(faltas("7.5")))).ok().unwrap();
    assert_eq!(p.inicio, "02-11-2022 03:04:05");
    assert_eq!(p.prot_sen, "51N");
    assert_eq!(p.prot_atu, "");
    assert_eq!(p.faltas.fase_a, "7.5");
}

#[test]
fn prev_eqp_without_faults() {
    let c = caso(zero(), zero());
    match PrevEqp::build_from(c, None) {
        Err(TableProcessError::MissingData(e)) => assert_eq!(e.0, "tabelaFaltas"),
        _ => panic!("esperava MissingData"),
    }
}
