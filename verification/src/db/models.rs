//! The rows of the occurrence database, as plain values.
use vstd::prelude::*;

verus! {

/// A `TIMESTAMP` column as the MySQL client hands it over: the calendar
/// fields and the fraction of a second, as the driver reads them.
#[derive(Clone, Copy)]
pub struct MysqlTime {
    pub year: u32,
    pub month: u32,
    pub day: u32,
    pub hour: u32,
    pub minute: u32,
    pub second: u32,
    pub second_part: u64,
}

/// A date and time of the proleptic Gregorian calendar, with the fields that
/// the texts of the e-mails show.
#[derive(Clone, Copy)]
pub struct DataHora {
    pub ano: i32,
    pub mes: u32,
    pub dia: u32,
    pub hora: u32,
    pub minuto: u32,
    pub segundo: u32,
    /// Nanoseconds; from 1_000_000_000 on it marks a leap second.
    pub nanossegundo: u32,
}

/// Whether `a` is a leap year of the proleptic Gregorian calendar.
pub open spec fn bissexto(a: int) -> bool {
    a % 4 == 0 && (a % 100 != 0 || a % 400 == 0)
}

/// The number of days of month `m` in year `a`.
pub open spec fn dias_no_mes(a: int, m: int) -> int {
    if m == 2 {
        if bissexto(a) {
            29
        } else {
            28
        }
    } else if m == 4 || m == 6 || m == 9 || m == 11 {
        30
    } else {
        31
    }
}

/// The calendar dates that the date type of the time library represents:
/// an existing day in a year from -262143 to 262142.
pub open spec fn data_valida(a: int, m: int, d: int) -> bool {
    &&& -262143 <= a <= 262142
    &&& 1 <= m <= 12
    &&& 1 <= d <= dias_no_mes(a, m)
}

impl DataHora {
    /// An existing date and a time of day; a nanosecond count from one second
    /// on stands for a leap second and only follows second 59.
    pub open spec fn valida(self) -> bool {
        &&& data_valida(self.ano as int, self.mes as int, self.dia as int)
        &&& self.hora < 24
        &&& self.minuto < 60
        &&& self.segundo < 60
        &&& self.nanossegundo < 2_000_000_000
        &&& (self.nanossegundo >= 1_000_000_000 ==> self.segundo == 59)
    }
}

/// The signed year that an unsigned year field stands for when it is read as
/// an `i32` (two's complement).
pub open spec fn ano_com_sinal(y: u32) -> int {
    if y < 0x8000_0000 {
        y as int
    } else {
        y - 0x1_0000_0000
    }
}

impl MysqlTime {
    /// The all-zero timestamp, which the database uses for "no time".
    pub open spec fn zerado(self) -> bool {
        &&& self.year == 0
        &&& self.month == 0
        &&& self.day == 0
        &&& self.hour == 0
        &&& self.minute == 0
        &&& self.second == 0
        &&& self.second_part == 0
    }

    /// A timestamp whose date and time of day exist.
    pub open spec fn valido(self) -> bool {
        &&& data_valida(ano_com_sinal(self.year), self.month as int, self.day as int)
        &&& self.hour < 24
        &&& self.minute < 60
        &&& self.second < 60
    }

    /// The timestamps that can be read: the zero one and the valid ones.
    pub open spec fn legivel(self) -> bool {
        self.zerado() || self.valido()
    }
}

/// Whether the calendar date exists, by the rules of `data_valida`.
pub fn e_data_valida(a: i32, m: u32, d: u32) -> (r: bool)
    ensures
        r == data_valida(a as int, m as int, d as int),
{
    if a < -262143 || a > 262142 || m < 1 || m > 12 || d < 1 {
        return false;
    }
    let bissexto: bool = a % 4 == 0 && (a % 100 != 0 || a % 400 == 0);
    assert(bissexto == crate::db::models::bissexto(a as int)) by {
        lema_resto_com_sinal(a);
    }
    let dias: u32 = if m == 2 {
        if bissexto {
            29
        } else {
            28
        }
    } else if m == 4 || m == 6 || m == 9 || m == 11 {
        30
    } else {
        31
    };
    d <= dias
}

/// For the divisors of the leap-year rule, a signed remainder is zero exactly
/// when the mathematical one is.
proof fn lema_resto_com_sinal(a: i32)
    ensures
        (a % 4 == 0) == ((a as int) % 4 == 0),
        (a % 100 == 0) == ((a as int) % 100 == 0),
        (a % 400 == 0) == ((a as int) % 400 == 0),
{
}

impl MysqlTime {
    /// Whether the timestamp can be read: the zero one or a valid one.
    pub fn e_legivel(&self) -> (r: bool)
        ensures
            r == self.legivel(),
    {
        if self.year == 0 && self.month == 0 && self.day == 0 && self.hour == 0 && self.minute == 0
            && self.second == 0 && self.second_part == 0 {
            return true;
        }
        let ano: i32 = if self.year < 0x8000_0000 {
            self.year as i32
        } else {
            i32::MIN + ((self.year - 0x8000_0000) as i32)
        };
        e_data_valida(ano, self.month, self.day) && self.hour < 24 && self.minute < 60 && self.second
            < 60
    }
}

impl DataHora {
    /// Whether the date and time are valid.
    pub fn e_valida(&self) -> (r: bool)
        ensures
            r == self.valida(),
    {
        e_data_valida(self.ano, self.mes, self.dia) && self.hora < 24 && self.minuto < 60
            && self.segundo < 60 && self.nanossegundo < 2_000_000_000 && (self.nanossegundo
            < 1_000_000_000 || self.segundo == 59)
    }
}

/// A row of the `Ocorrencia` table.
pub struct Ocor {
    pub id: i32,
    pub se: Option<String>,
    pub al: Option<String>,
    pub eqp: Option<String>,
    pub hora_update: MysqlTime,
    pub hora_oco: MysqlTime,
    pub hora_ini: MysqlTime,
    pub hora_fim: MysqlTime,
    pub num_relig: Option<i32>,
    pub tipo_oco: Option<String>,
    pub prot_sen: Option<String>,
    pub prot_atu: Option<String>,
    pub faltas: Option<String>,
    pub condpre: Option<String>,
    pub condpos: Option<String>,
    pub email_sended: Option<String>,
    pub sms_sended: Option<String>,
    pub id_cause: Option<i32>,
    pub modified_by: Option<String>,
    pub cause: Option<String>,
    pub observacao: Option<String>,
}

/// A row of the `Ocorrencia_SOE` table: one event of an occurrence.
pub struct OcorSoe {
    pub id: i32,
    pub oco_id: Option<i32>,
    pub time_stamp: Option<DataHora>,
    pub hora_evento: Option<DataHora>,
    pub complemento: Option<String>,
    pub mensagem: Option<String>,
    pub tipo: Option<String>,
    pub alarme_norm: Option<String>,
    pub actor_id: Option<String>,
}

/// A row of the `CadastroEmails` table: one recipient of a company.
pub struct Email {
    pub id: i32,
    pub empresa: Option<String>,
    pub email_adrs: Option<String>,
    pub email_name: Option<String>,
    pub env_relig: Option<String>,
    pub env_lockout: Option<String>,
    pub env_normaliz: Option<String>,
}

} // verus!
