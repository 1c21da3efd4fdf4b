//! The departure board: one row per city, each with the time of day, AM or
//! PM and the weekday in that city.

use vstd::prelude::*;
use vstd::string::StrSliceExecFns;
use crate::cells::{cells_at_rest, cells_resting, cells_show, cells_retargeted, cells_settled, cells_wf, FlipCells};
use crate::clock::{digit_glyph, glyph_of};
use crate::digit::FlipCell;
use crate::zone::{instant_in_range, local_time, local_time_at, offset_in_range, LocalTime, EARLIEST_INSTANT, LATEST_INSTANT};

verus! {

/// The shortest time, in milliseconds, between two recomputations of the
/// board. The rows change with the minute, so ten looks a second are plenty.
pub const REFRESH_INTERVAL: u64 = 100;

/// A city of the board: its name and its fixed offset from UTC. There is no
/// daylight saving time on the board.
#[derive(Debug)]
pub struct City {
    pub name: String,
    pub offset_hours: i32,
    pub offset_minutes: i32,
}

/// The offset in seconds east of UTC; an offset of a day or more counts as
/// none.
pub open spec fn offset_seconds_of(hours: int, minutes: int) -> int {
    let total = hours * 3_600 + minutes * 60;
    if -86_400 < total < 86_400 {
        total
    } else {
        0
    }
}

/// The five glyphs of the time of day: the hour on a 12-hour dial, padded
/// with a space, a colon, and the minute in two digits.
pub open spec fn time_text(t: LocalTime) -> Seq<char> {
    seq![
        if t.hour12 >= 10 { '1' } else { ' ' },
        digit_glyph(t.hour12 as int),
        ':',
        digit_glyph(t.minute as int / 10),
        digit_glyph(t.minute as int),
    ]
}

/// The two glyphs of the half of the day.
pub open spec fn am_pm_text(t: LocalTime) -> Seq<char> {
    seq![if t.is_pm { 'P' } else { 'A' }, 'M']
}

/// The three glyphs of the weekday.
pub open spec fn weekday_text(t: LocalTime) -> Seq<char> {
    t.weekday.letters()
}

/// The five glyphs of the time of day.
pub fn time_glyphs(t: &LocalTime) -> (g: Vec<char>)
    ensures
        g@ == time_text(*t),
        g@.len() == 5,
{
    let mut g: Vec<char> = Vec::with_capacity(5);
    g.push(if t.hour12 >= 10 { '1' } else { ' ' });
    g.push(glyph_of(t.hour12));
    g.push(':');
    g.push(glyph_of(t.minute / 10));
    g.push(glyph_of(t.minute));
    assert(g@ =~= time_text(*t));
    g
}

/// The two glyphs of the half of the day.
pub fn am_pm_glyphs(t: &LocalTime) -> (g: Vec<char>)
    ensures
        g@ == am_pm_text(*t),
        g@.len() == 2,
{
    let mut g: Vec<char> = Vec::with_capacity(2);
    g.push(if t.is_pm { 'P' } else { 'A' });
    g.push('M');
    assert(g@ =~= am_pm_text(*t));
    g
}

impl City {
    /// A city by its name and its offset from UTC in hours and minutes.
    pub fn new(name: &str, offset_hours: i32, offset_minutes: i32) -> (city: City)
        ensures
            city.name@ == name@,
            city.offset_hours == offset_hours,
            city.offset_minutes == offset_minutes,
    {
        City { name: name.to_owned(), offset_hours, offset_minutes }
    }

    /// The letters of the city's name.
    pub fn letters(&self) -> (text: Vec<char>)
        ensures
            text@ == self.name@,
    {
        let name: &str = self.name.as_str();
        let n: usize = name.unicode_len();
        let mut text: Vec<char> = Vec::with_capacity(n);
        let mut i: usize = 0;
        while i < n
            invariant
                i <= n,
                n == name@.len(),
                name@ == self.name@,
                text@ == name@.take(i as int),
            decreases n - i,
        {
            text.push(name.get_char(i));
            assert(name@.take(i + 1) =~= name@.take(i as int).push(name@[i as int]));
            i += 1;
        }
        assert(name@.take(n as int) =~= name@);
        text
    }

    /// The city's offset in seconds east of UTC.
    pub open spec fn offset(&self) -> int {
        offset_seconds_of(self.offset_hours as int, self.offset_minutes as int)
    }

    /// The city's offset in seconds east of UTC; an offset of a day or more
    /// counts as none.
    pub fn offset_seconds(&self) -> (seconds: i32)
        ensures
            seconds == self.offset(),
            offset_in_range(seconds),
    {
        let total: i64 = (self.offset_hours as i64) * 3_600 + (self.offset_minutes as i64) * 60;
        if -86_400 < total && total < 86_400 {
            total as i32
        } else {
            0
        }
    }
}

/// The model of a row: the city's offset and the cells of its three fields.
pub struct RowView {
    pub offset: int,
    pub time: Seq<FlipCell>,
    pub am_pm: Seq<FlipCell>,
    pub weekday: Seq<FlipCell>,
}

impl RowView {
    /// The fields have five, two and three cells, all well formed.
    pub open spec fn wf(self) -> bool {
        &&& self.time.len() == 5
        &&& self.am_pm.len() == 2
        &&& self.weekday.len() == 3
        &&& cells_wf(self.time)
        &&& cells_wf(self.am_pm)
        &&& cells_wf(self.weekday)
        &&& -86_400 < self.offset < 86_400
    }

    /// A row at rest that shows nothing yet.
    pub open spec fn blank(offset: int) -> RowView {
        RowView {
            offset,
            time: cells_resting(seq![' ', ' ', ':', ' ', ' '], 5),
            am_pm: cells_resting(seq![' ', ' '], 2),
            weekday: cells_resting(seq![' ', ' ', ' '], 3),
        }
    }

    /// The row told the civil time of its city. Each field is retargeted on
    /// its own: one that shows its text already is left alone, another one
    /// starts over from its settled state.
    pub open spec fn shown(self, t: LocalTime, now: u64) -> RowView {
        RowView {
            offset: self.offset,
            time: cells_retargeted(self.time, time_text(t), now),
            am_pm: cells_retargeted(self.am_pm, am_pm_text(t), now),
            weekday: cells_retargeted(self.weekday, weekday_text(t), now),
        }
    }

    /// The row at the instant `utc_seconds`, seen from its city.
    pub open spec fn refreshed(self, utc_seconds: i64, now: u64) -> RowView {
        self.shown(local_time_at(utc_seconds, self.offset as i32), now)
    }

    /// The row with every flip that has run its full length committed.
    pub open spec fn settled(self, now: u64, duration: u64) -> RowView {
        RowView {
            offset: self.offset,
            time: cells_settled(self.time, now, duration),
            am_pm: cells_settled(self.am_pm, now, duration),
            weekday: cells_settled(self.weekday, now, duration),
        }
    }

    /// The row with every flip committed, complete or not.
    pub open spec fn at_rest(self) -> RowView {
        RowView {
            offset: self.offset,
            time: cells_at_rest(self.time),
            am_pm: cells_at_rest(self.am_pm),
            weekday: cells_at_rest(self.weekday),
        }
    }
}

/// One row of the board.
#[derive(Debug)]
pub struct DepartureBoardRow {
    city: City,
    time: FlipCells,
    am_pm: FlipCells,
    weekday: FlipCells,
}

impl View for DepartureBoardRow {
    type V = RowView;

    closed spec fn view(&self) -> RowView {
        RowView {
            offset: self.city.offset(),
            time: self.time@,
            am_pm: self.am_pm@,
            weekday: self.weekday@,
        }
    }
}

impl DepartureBoardRow {
    /// The row's city.
    pub closed spec fn city_of(&self) -> City {
        self.city
    }

    /// A row for `city` that is at rest and shows nothing yet.
    pub fn new(city: City) -> (row: DepartureBoardRow)
        ensures
            row@ == RowView::blank(city.offset()),
            row@.wf(),
            row.city_of() == city,
    {
        let time_blank: Vec<char> = vec![' ', ' ', ':', ' ', ' '];
        let pair_blank: Vec<char> = vec![' ', ' '];
        let day_blank: Vec<char> = vec![' ', ' ', ' '];
        assert(time_blank@ =~= seq![' ', ' ', ':', ' ', ' ']);
        assert(pair_blank@ =~= seq![' ', ' ']);
        assert(day_blank@ =~= seq![' ', ' ', ' ']);
        DepartureBoardRow {
            city,
            time: FlipCells::resting(&time_blank, 5),
            am_pm: FlipCells::resting(&pair_blank, 2),
            weekday: FlipCells::resting(&day_blank, 3),
        }
    }

    /// The row's city.
    pub fn city(&self) -> (c: &City)
        ensures
            *c == self.city_of(),
            c.offset() == self@.offset,
    {
        &self.city
    }

    /// The cells of the time of day.
    pub fn time(&self) -> (f: &FlipCells)
        ensures
            f@ == self@.time,
    {
        &self.time
    }

    /// The cells of AM or PM.
    pub fn am_pm(&self) -> (f: &FlipCells)
        ensures
            f@ == self@.am_pm,
    {
        &self.am_pm
    }

    /// The cells of the weekday.
    pub fn weekday(&self) -> (f: &FlipCells)
        ensures
            f@ == self@.weekday,
    {
        &self.weekday
    }

    /// Tells the row the civil time of its city as of `now`.
    pub fn show(&mut self, t: &LocalTime, now: u64)
        requires
            old(self)@.wf(),
        ensures
            final(self)@ == old(self)@.shown(*t, now),
            final(self)@.wf(),
            final(self).city_of() == old(self).city_of(),
    {
        let time = time_glyphs(t);
        let am_pm = am_pm_glyphs(t);
        let weekday = t.weekday.abbreviation();
        self.time.retarget(&time, now);
        self.am_pm.retarget(&am_pm, now);
        self.weekday.retarget(&weekday, now);
    }

    /// Commits every flip of the row that has run its full length, and
    /// says whether there was one.
    pub fn settle_completed(&mut self, now: u64, duration: u64) -> (any: bool)
        requires
            old(self)@.wf(),
        ensures
            final(self)@ == old(self)@.settled(now, duration),
            final(self)@.wf(),
            final(self).city_of() == old(self).city_of(),
            any == (final(self)@ != old(self)@),
    {
        let a: bool = self.time.settle_completed(now, duration);
        let b: bool = self.am_pm.settle_completed(now, duration);
        let c: bool = self.weekday.settle_completed(now, duration);
        a || b || c
    }

    /// Commits every flip of the row, complete or not.
    pub fn rest(&mut self)
        requires
            old(self)@.wf(),
        ensures
            final(self)@ == old(self)@.at_rest(),
            final(self)@.wf(),
            final(self).city_of() == old(self).city_of(),
    {
        self.time.settle_all();
        self.am_pm.settle_all();
        self.weekday.settle_all();
    }
}

/// The colon stands still: in a row whose middle time cell rests on the
/// colon, that cell rests on the colon after any time is shown, so it never
/// flips.
pub proof fn colon_never_flips(row: RowView, t: LocalTime, now: u64)
    requires
        row.time.len() == 5,
        row.time[2] == FlipCell::resting(':'),
    ensures
        row.shown(t, now).time[2] == FlipCell::resting(':'),
        RowView::blank(row.offset).time[2] == FlipCell::resting(':'),
{
}

/// The fields of a row are told apart: a time that differs only in the
/// minute leaves AM/PM and the weekday exactly as they were, flips under
/// way included.
pub proof fn fields_flip_independently(row: RowView, t: LocalTime, now: u64)
    requires
        row.wf(),
        cells_show(row.am_pm, am_pm_text(t)),
        cells_show(row.weekday, weekday_text(t)),
    ensures
        row.shown(t, now).am_pm == row.am_pm,
        row.shown(t, now).weekday == row.weekday,
{
}

/// After a row is shown a time it shows that time: the targets of its three
/// fields are the glyphs of the time, whatever was under way before.
pub proof fn row_shows_the_time(row: RowView, t: LocalTime, now: u64)
    ensures
        cells_show(row.shown(t, now).time, time_text(t)),
        cells_show(row.shown(t, now).am_pm, am_pm_text(t)),
        cells_show(row.shown(t, now).weekday, weekday_text(t)),
        row.shown(t, now).offset == row.offset,
{
}

/// The names and offsets of the cities of the standard board, from west to
/// east.
pub open spec fn standard_cities() -> Seq<(Seq<char>, int, int)> {
    seq![
        ("HAWAII"@, -10, 0),
        ("LOS ANGELES"@, -8, 0),
        ("NEW YORK (EST)"@, -5, 0),
        ("UTC"@, 0, 0),
        ("LONDON"@, 0, 0),
        ("STOCKHOLM"@, 1, 0),
        ("PARIS"@, 1, 0),
        ("HANOI"@, 7, 0),
        ("BRISBANE"@, 10, 0),
        ("WELLINGTON"@, 12, 0),
    ]
}

/// What a list of cities says, entry by entry.
pub open spec fn city_entries(cities: Seq<City>) -> Seq<(Seq<char>, int, int)> {
    Seq::new(
        cities.len(),
        |i: int| (cities[i].name@, cities[i].offset_hours as int, cities[i].offset_minutes as int),
    )
}

/// The cities of the standard board.
pub fn cities() -> (table: Vec<City>)
    ensures
        city_entries(table@) == standard_cities(),
        table@.len() == 10,
{
    let mut table: Vec<City> = Vec::with_capacity(10);
    table.push(City::new("HAWAII", -10, 0));
    table.push(City::new("LOS ANGELES", -8, 0));
    table.push(City::new("NEW YORK (EST)", -5, 0));
    table.push(City::new("UTC", 0, 0));
    table.push(City::new("LONDON", 0, 0));
    table.push(City::new("STOCKHOLM", 1, 0));
    table.push(City::new("PARIS", 1, 0));
    table.push(City::new("HANOI", 7, 0));
    table.push(City::new("BRISBANE", 10, 0));
    table.push(City::new("WELLINGTON", 12, 0));
    assert(city_entries(table@) =~= standard_cities());
    table
}

/// The model of a board: its rows and the instant of its last
/// recomputation.
pub struct BoardView {
    pub rows: Seq<RowView>,
    pub last_update: Option<u64>,
}

/// Whether a board that was last recomputed at `last` is due again at
/// `now`.
pub open spec fn refresh_due(last: Option<u64>, now: u64) -> bool {
    match last {
        None => true,
        Some(t) => now - t >= REFRESH_INTERVAL,
    }
}

impl BoardView {
    /// Every row is well formed.
    pub open spec fn wf(self) -> bool {
        forall|i: int| 0 <= i < self.rows.len() ==> (#[trigger] self.rows[i]).wf()
    }

    /// The board shown the instant `utc_seconds` at `now`.
    ///
    /// Nothing happens when the board was recomputed less than a tenth of a
    /// second ago, or when the instant is outside the span that is
    /// converted. Otherwise every row is told the civil time of its city.
    pub open spec fn updated(self, utc_seconds: i64, now: u64) -> BoardView {
        if refresh_due(self.last_update, now) && instant_in_range(utc_seconds) {
            BoardView {
                rows: Seq::new(self.rows.len(), |i: int| self.rows[i].refreshed(utc_seconds, now)),
                last_update: Some(now),
            }
        } else {
            self
        }
    }

    /// The board with every flip that has run its full length committed.
    pub open spec fn settled(self, now: u64, duration: u64) -> BoardView {
        BoardView {
            rows: Seq::new(self.rows.len(), |i: int| self.rows[i].settled(now, duration)),
            last_update: self.last_update,
        }
    }

    /// The board with every flip committed, complete or not.
    pub open spec fn at_rest(self) -> BoardView {
        BoardView {
            rows: Seq::new(self.rows.len(), |i: int| self.rows[i].at_rest()),
            last_update: self.last_update,
        }
    }

    /// A board of blank rows, one per offset, that was never recomputed.
    pub open spec fn blank(offsets: Seq<int>) -> BoardView {
        BoardView {
            rows: Seq::new(offsets.len(), |i: int| RowView::blank(offsets[i])),
            last_update: None,
        }
    }
}

/// The offsets of a list of cities, in seconds east of UTC.
pub open spec fn city_offsets(cities: Seq<City>) -> Seq<int> {
    Seq::new(cities.len(), |i: int| cities[i].offset())
}

/// The departure board.
#[derive(Debug)]
pub struct DepartureBoard {
    rows: Vec<DepartureBoardRow>,
    last_update: Option<u64>,
}

impl View for DepartureBoard {
    type V = BoardView;

    closed spec fn view(&self) -> BoardView {
        BoardView {
            rows: self.rows@.map_values(|r: DepartureBoardRow| r@),
            last_update: self.last_update,
        }
    }
}

impl DepartureBoard {
    /// The cities of the rows.
    pub closed spec fn cities_of(&self) -> Seq<City> {
        self.rows@.map_values(|r: DepartureBoardRow| r.city_of())
    }

    /// A board with one blank row per city that was never recomputed.
    pub fn blank(cities: Vec<City>) -> (board: DepartureBoard)
        ensures
            board@ == BoardView::blank(city_offsets(cities@)),
            board@.wf(),
            board@.rows.len() == cities@.len(),
            board.cities_of() == cities@,
    {
        let ghost listed = cities@;
        let mut cities = cities;
        let mut rows: Vec<DepartureBoardRow> = Vec::with_capacity(cities.len());
        let n: usize = cities.len();
        let mut i: usize = 0;
        while i < n
            invariant
                i <= n,
                n == listed.len(),
                cities@.len() == n - i,
                rows@.len() == i,
                forall|k: int| 0 <= k < n - i ==> cities@[k] == listed[i + k],
                forall|k: int|
                    0 <= k < i ==> (#[trigger] rows@[k])@ == RowView::blank(listed[k].offset())
                        && rows@[k].city_of() == listed[k],
            decreases n - i,
        {
            let city = cities.remove(0);
            rows.push(DepartureBoardRow::new(city));
            i += 1;
        }
        let board = DepartureBoard { rows, last_update: None };
        assert(board@.rows =~= BoardView::blank(city_offsets(listed)).rows);
        assert(board.cities_of() =~= listed);
        board
    }

    /// A board for `cities` that is at rest on the instant `utc_seconds`:
    /// a blank board shown the instant, with every flip committed at once so
    /// that nothing flips on the first frame.
    pub fn new(cities: Vec<City>, utc_seconds: i64, now: u64) -> (board: DepartureBoard)
        ensures
            board@ == BoardView::blank(city_offsets(cities@)).updated(utc_seconds, now).at_rest(),
            board@.wf(),
            board@.rows.len() == cities@.len(),
            board.cities_of() == cities@,
    {
        let mut board = DepartureBoard::blank(cities);
        board.update(utc_seconds, now);
        board.rest();
        board
    }

    /// The number of rows.
    pub fn len(&self) -> (n: usize)
        ensures
            n == self@.rows.len(),
    {
        self.rows.len()
    }

    /// Row `index`, or `None` past the last row.
    pub fn row(&self, index: usize) -> (r: Option<&DepartureBoardRow>)
        ensures
            r is Some <==> index < self@.rows.len(),
            r is Some ==> r->0@ == self@.rows[index as int] && r->0.city_of() == self.cities_of()[
                index as int],
    {
        if index < self.rows.len() {
            Some(&self.rows[index])
        } else {
            None
        }
    }

    /// The instant of the last recomputation, if there was one.
    pub fn last_update(&self) -> (t: Option<u64>)
        ensures
            t == self@.last_update,
    {
        self.last_update
    }

    /// Shows the board the instant `utc_seconds`, in seconds since the Unix
    /// epoch, at the instant `now` of the monotonic clock.
    ///
    /// The board recomputes its rows at most once in a tenth of a second,
    /// and leaves them alone when the instant is outside the span that is
    /// converted. A row's fields are retargeted one by one, so a change of
    /// the minute flips cells of the time and leaves AM/PM and weekday be.
    pub fn update(&mut self, utc_seconds: i64, now: u64)
        requires
            old(self)@.wf(),
        ensures
            final(self)@ == old(self)@.updated(utc_seconds, now),
            final(self)@.wf(),
            final(self).cities_of() == old(self).cities_of(),
    {
        let due: bool = match self.last_update {
            None => true,
            Some(t) => now >= t && now - t >= REFRESH_INTERVAL,
        };
        if !due || utc_seconds < EARLIEST_INSTANT || utc_seconds > LATEST_INSTANT {
            return ;
        }
        let n: usize = self.rows.len();
        assert forall|k: int| 0 <= k < n implies (#[trigger] self.rows@[k])@.wf() by {
            assert(self@.rows[k].wf());
        }
        let mut i: usize = 0;
        while i < n
            invariant
                i <= n,
                n == self.rows@.len(),
                n == old(self)@.rows.len(),
                instant_in_range(utc_seconds),
                old(self)@.wf(),
                self.last_update == old(self).last_update,
                forall|k: int|
                    0 <= k < i ==> (#[trigger] self.rows@[k])@ == old(self)@.rows[k].refreshed(
                        utc_seconds,
                        now,
                    ),
                forall|k: int| i <= k < n ==> (#[trigger] self.rows@[k])@ == old(self)@.rows[k],
                forall|k: int| 0 <= k < n ==> (#[trigger] self.rows@[k]).city_of() == old(self).cities_of()[k],
                forall|k: int| 0 <= k < n ==> (#[trigger] self.rows@[k])@.wf(),
            decreases n - i,
        {
            let offset: i32 = self.rows[i].city().offset_seconds();
            let t = local_time(utc_seconds, offset).unwrap();
            self.rows[i].show(&t, now);
            i += 1;
        }
        self.last_update = Some(now);
        assert(self@.rows =~= old(self)@.updated(utc_seconds, now).rows);
        assert(self.cities_of() =~= old(self).cities_of());
    }

    /// Commits every flip of the board that has run its full length, and
    /// says whether there was one.
    pub fn settle_completed(&mut self, now: u64, duration: u64) -> (any: bool)
        requires
            old(self)@.wf(),
        ensures
            final(self)@ == old(self)@.settled(now, duration),
            final(self)@.wf(),
            final(self).cities_of() == old(self).cities_of(),
            any == (final(self)@ != old(self)@),
    {
        let n: usize = self.rows.len();
        assert forall|k: int| 0 <= k < n implies (#[trigger] self.rows@[k])@.wf() by {
            assert(self@.rows[k].wf());
        }
        let mut any: bool = false;
        let mut i: usize = 0;
        while i < n
            invariant
                i <= n,
                n == self.rows@.len(),
                n == old(self)@.rows.len(),
                old(self)@.wf(),
                self.last_update == old(self).last_update,
                forall|k: int|
                    0 <= k < i ==> (#[trigger] self.rows@[k])@ == old(self)@.rows[k].settled(
                        now,
                        duration,
                    ),
                forall|k: int| i <= k < n ==> (#[trigger] self.rows@[k])@ == old(self)@.rows[k],
                forall|k: int|
                    0 <= k < n ==> (#[trigger] self.rows@[k]).city_of() == old(self).cities_of()[k],
                forall|k: int| 0 <= k < n ==> (#[trigger] self.rows@[k])@.wf(),
                any == exists|k: int|
                    0 <= k < i && (#[trigger] old(self)@.rows[k]).settled(now, duration) != old(
                        self,
                    )@.rows[k],
            decreases n - i,
        {
            if self.rows[i].settle_completed(now, duration) {
                any = true;
            }
            i += 1;
        }
        assert(self@.rows =~= old(self)@.settled(now, duration).rows);
        assert(self.cities_of() =~= old(self).cities_of());
        proof {
            if any {
                let k = choose|k: int|
                    0 <= k < n && (#[trigger] old(self)@.rows[k]).settled(now, duration) != old(
                        self,
                    )@.rows[k];
                assert(self@.rows[k] != old(self)@.rows[k]);
            } else {
                assert(self@.rows =~= old(self)@.rows);
            }
        }
        any
    }

    /// Commits every flip of the board, complete or not.
    pub fn rest(&mut self)
        requires
            old(self)@.wf(),
        ensures
            final(self)@ == old(self)@.at_rest(),
            final(self)@.wf(),
            final(self).cities_of() == old(self).cities_of(),
    {
        let n: usize = self.rows.len();
        assert forall|k: int| 0 <= k < n implies (#[trigger] self.rows@[k])@.wf() by {
            assert(self@.rows[k].wf());
        }
        let mut i: usize = 0;
        while i < n
            invariant
                i <= n,
                n == self.rows@.len(),
                n == old(self)@.rows.len(),
                old(self)@.wf(),
                self.last_update == old(self).last_update,
                forall|k: int| 0 <= k < i ==> (#[trigger] self.rows@[k])@ == old(self)@.rows[k].at_rest(),
                forall|k: int| i <= k < n ==> (#[trigger] self.rows@[k])@ == old(self)@.rows[k],
                forall|k: int| 0 <= k < n ==> (#[trigger] self.rows@[k]).city_of() == old(self).cities_of()[k],
                forall|k: int| 0 <= k < n ==> (#[trigger] self.rows@[k])@.wf(),
            decreases n - i,
        {
            self.rows[i].rest();
            i += 1;
        }
        assert(self@.rows =~= old(self)@.at_rest().rows);
        assert(self.cities_of() =~= old(self).cities_of());
    }
}

} // verus!