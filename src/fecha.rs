use vstd::prelude::*;

verus! {

/// Whether `year` is a leap year of the proleptic Gregorian calendar.
pub open spec fn es_bisiesto(year: int) -> bool {
    (year % 4 == 0 && year % 100 != 0) || year % 400 == 0
}

/// Number of days of `month` (1..=12) in `year`.
pub open spec fn dias_del_mes(year: int, month: int) -> int {
    if month == 2 {
        if es_bisiesto(year) { 29 } else { 28 }
    } else if month == 4 || month == 6 || month == 9 || month == 11 {
        30
    } else {
        31
    }
}

/// A calendar date.
#[derive(Clone, Copy, Debug, PartialEq, Eq, Structural)]
pub struct Fecha {
    pub year: i32,
    pub month: u32,
    pub day: u32,
}

impl Fecha {
    /// The fields name an existing day, within the years that the store keeps.
    pub open spec fn wf(&self) -> bool {
        -262_144 <= self.year <= 262_143 && 1 <= self.month <= 12 && 1 <= self.day <= dias_del_mes(self.year as int, self.month as int)
    }

    /// Tells whether the fields name an existing day within the years that
    /// the store keeps.
    pub fn es_valida(&self) -> (r: bool)
        ensures
            r == self.wf(),
    {
        if self.year < -262_144 || self.year > 262_143 || self.month < 1 || self.month > 12 {
            return false;
        }
        let bisiesto = (self.year % 4 == 0 && self.year % 100 != 0) || self.year % 400 == 0;
        let dias: u32 = if self.month == 2 {
            if bisiesto { 29 } else { 28 }
        } else if self.month == 4 || self.month == 6 || self.month == 9 || self.month == 11 {
            30
        } else {
            31
        };
        1 <= self.day && self.day <= dias
    }
}

/// `a` comes strictly before `b` in the calendar.
pub open spec fn antes_de(a: Fecha, b: Fecha) -> bool {
    a.year < b.year || (a.year == b.year && a.month < b.month) || (a.year == b.year && a.month
        == b.month && a.day < b.day)
}

/// The date `anios` years after `f`, on the same month and day. On a 29th of
/// February it may name no existing day; it still orders as that day would.
pub open spec fn aniversario(f: Fecha, anios: int) -> Fecha {
    Fecha { year: (f.year + anios) as i32, month: f.month, day: f.day }
}

/// The calendar day before `f`.
pub open spec fn dia_anterior(f: Fecha) -> Fecha {
    if f.day > 1 {
        Fecha { year: f.year, month: f.month, day: (f.day - 1) as u32 }
    } else if f.month > 1 {
        let m = (f.month - 1) as u32;
        Fecha { year: f.year, month: m, day: dias_del_mes(f.year as int, m as int) as u32 }
    } else {
        Fecha { year: (f.year - 1) as i32, month: 12, day: 31 }
    }
}

/// Whole years elapsed from `nacimiento` to `hoy`: the difference of the years,
/// less one while this year's anniversary has not been reached.
pub open spec fn anios_cumplidos(nacimiento: Fecha, hoy: Fecha) -> int {
    let cumplido = nacimiento.month < hoy.month
        || (nacimiento.month == hoy.month && nacimiento.day <= hoy.day);
    hoy.year - nacimiento.year - if cumplido { 0int } else { 1int }
}

/// Computes the age of someone born on `nacimiento` as of `hoy`.
pub fn edad(nacimiento: &Fecha, hoy: &Fecha) -> (r: i32)
    requires
        nacimiento.wf(),
        hoy.wf(),
    ensures
        r == anios_cumplidos(*nacimiento, *hoy),
{
    let diferencia: i64 = hoy.year as i64 - nacimiento.year as i64;
    let cumplido = nacimiento.month < hoy.month
        || (nacimiento.month == hoy.month && nacimiento.day <= hoy.day);
    if cumplido {
        diferencia as i32
    } else {
        (diferencia - 1) as i32
    }
}

/// On the day of someone's 30th anniversary their age is 30; on the day
/// before it, 29.
pub proof fn ley_edad_trigesimo_aniversario(nacimiento: Fecha)
    requires
        nacimiento.wf(),
        nacimiento.year + 30 <= i32::MAX,
    ensures
        anios_cumplidos(nacimiento, aniversario(nacimiento, 30)) == 30,
        anios_cumplidos(nacimiento, dia_anterior(aniversario(nacimiento, 30))) == 29,
{
}

/// The age is `anios` exactly from the `anios`-th anniversary of the birth
/// date up to the day before the next one.
pub proof fn ley_edad_entre_aniversarios(nacimiento: Fecha, hoy: Fecha, anios: int)
    requires
        nacimiento.wf(),
        hoy.wf(),
        i32::MIN <= nacimiento.year + anios,
        nacimiento.year + anios + 1 <= i32::MAX,
    ensures
        anios_cumplidos(nacimiento, hoy) == anios <==> (!antes_de(hoy, aniversario(nacimiento, anios))
            && antes_de(hoy, aniversario(nacimiento, anios + 1))),
{
}

/// A time of day, to the nanosecond.
#[derive(Clone, Copy, Debug, PartialEq, Eq, Structural)]
pub struct Hora {
    pub hour: u32,
    pub minute: u32,
    pub second: u32,
    pub nanosecond: u32,
}

impl Hora {
    /// The fields name an existing instant of a day. A leap second is carried
    /// in `nanosecond`, beyond 999_999_999, at the 59th second of a minute.
    pub open spec fn wf(&self) -> bool {
        self.hour < 24 && self.minute < 60 && self.second < 60 && (self.nanosecond < 1_000_000_000 || (
        self.second == 59 && self.nanosecond < 2_000_000_000))
    }

    /// Tells whether the fields name an existing instant of a day.
    pub fn es_valida(&self) -> (r: bool)
        ensures
            r == self.wf(),
    {
        self.hour < 24 && self.minute < 60 && self.second < 60 && (self.nanosecond < 1_000_000_000 || (
        self.second == 59 && self.nanosecond < 2_000_000_000))
    }
}

/// A date and a time of day, with no time zone.
#[derive(Clone, Copy, Debug, PartialEq, Eq, Structural)]
pub struct FechaHora {
    pub fecha: Fecha,
    pub hora: Hora,
}

} // verus!
