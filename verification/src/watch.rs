//! The watchlist of names and the expiry status reported for each watched
//! name. Times are Unix seconds.
use vstd::prelude::*;
use crate::output::{ansi_escape, painted};
use crate::text::{str_eq, string_of};

verus! {

/// How long after its expiry a name counts as expired and available.
pub const EXPIRED_AFTER_SECONDS: i64 = 7_776_000;

/// How long before its expiry a name counts as expiring soon.
pub const EXPIRING_SOON_SECONDS: i64 = 2_592_000;

/// The first second that chrono can turn into a date-time: the start of
/// `NaiveDate::MIN` (1 January of year -262143).
pub const FIRST_DATE_SECOND: i64 = -8_334_601_228_800;

/// The last second that chrono can turn into a date-time: the end of
/// `NaiveDate::MAX` (31 December of year 262142).
pub const LAST_DATE_SECOND: i64 = 8_210_266_876_799;

/// Where a watched name stands, with its expiry where it has one.
#[derive(Clone, Copy, Debug, PartialEq, Eq, Structural)]
pub enum ExpiryStatus {
    Safe(i64),
    ExpiringSoon(i64),
    InGracePeriod(i64),
    Expired,
    NotRegistered,
}

/// The status of a name expiring at `expires_at` (none when it is not
/// registered), seen at `now`.
pub open spec fn expiry_status_at(expires_at: Option<i64>, now: i64) -> ExpiryStatus {
    match expires_at {
        Some(e) => if now > e + EXPIRED_AFTER_SECONDS {
            ExpiryStatus::Expired
        } else if now > e {
            ExpiryStatus::InGracePeriod(e)
        } else if now > e - EXPIRING_SOON_SECONDS {
            ExpiryStatus::ExpiringSoon(e)
        } else {
            ExpiryStatus::Safe(e)
        },
        None => ExpiryStatus::NotRegistered,
    }
}

/// The UTC calendar date of a Unix second, written `YYYY-MM-DD` (chrono's
/// `%Y-%m-%d`).
pub uninterp spec fn day_text(secs: i64) -> Seq<char>;

/// The current time in Unix seconds (chrono's `Utc::now().timestamp()`).
/// Nothing is claimed of the value: it is the clock's.
#[verifier::external_body]
fn utc_now_seconds() -> (r: i64) {
    chrono::Utc::now().timestamp()
}

/// The `%Y-%m-%d` text of the UTC date of `secs`, by chrono
/// (`DateTime::from_timestamp(secs, 0)`, then `format`). chrono's
/// `from_timestamp` gives a date-time exactly for the seconds from
/// `FIRST_DATE_SECOND` to `LAST_DATE_SECOND`, the range admitted here; the
/// text is named by `day_text`.
#[verifier::external_body]
fn format_day(secs: i64) -> (r: String)
    requires
        FIRST_DATE_SECOND <= secs <= LAST_DATE_SECOND,
    ensures
        r@ == day_text(secs),
{
    chrono::DateTime::from_timestamp(secs, 0).unwrap_or_default().format("%Y-%m-%d").to_string()
}

/// The text chrono's `Display` gives a UTC date-time (`YYYY-MM-DD hh:mm:ss
/// UTC` for whole seconds).
pub uninterp spec fn datetime_text(secs: i64) -> Seq<char>;

/// The `Display` text of the UTC date-time of `secs`, by chrono
/// (`DateTime::from_timestamp(secs, 0)`, then `to_string`); the text is named
/// by `datetime_text`. The admitted range is the one `format_day` admits.
#[verifier::external_body]
pub(crate) fn format_datetime(secs: i64) -> (r: String)
    requires
        FIRST_DATE_SECOND <= secs <= LAST_DATE_SECOND,
    ensures
        r@ == datetime_text(secs),
{
    chrono::DateTime::from_timestamp(secs, 0).unwrap_or_default().to_string()
}

/// A color name that lower-casing leaves unchanged: ASCII, with no
/// upper-case letter.
pub open spec fn lower_ascii_name(name: Seq<char>) -> bool {
    forall|i: int| 0 <= i < name.len() ==> (name[i] as u32) < 128 && !('A' <= #[trigger] name[i] && name[i] <= 'Z')
}

/// The foreground code the colored crate gives a color name (its `FromStr`
/// table on the lower-cased name); a name it does not know is white (`37`).
pub open spec fn color_code(name: Seq<char>) -> Seq<char> {
    if name == "black"@ { "30"@ }
    else if name == "red"@ { "31"@ }
    else if name == "green"@ { "32"@ }
    else if name == "yellow"@ { "33"@ }
    else if name == "blue"@ { "34"@ }
    else if name == "magenta"@ || name == "purple"@ { "35"@ }
    else if name == "cyan"@ { "36"@ }
    else if name == "white"@ { "37"@ }
    else if name == "bright black"@ { "90"@ }
    else if name == "bright red"@ { "91"@ }
    else if name == "bright green"@ { "92"@ }
    else if name == "bright yellow"@ { "93"@ }
    else if name == "bright blue"@ { "94"@ }
    else if name == "bright magenta"@ { "95"@ }
    else if name == "bright cyan"@ { "96"@ }
    else if name == "bright white"@ { "97"@ }
    else { "37"@ }
}

/// `text` painted in the named color by the colored crate
/// (`Colorize::color(text, color)`, then `to_string`). The name becomes a
/// color through colored's `From<&str>` (its `FromStr` on the lower-cased
/// name, white when unknown); a name that lower-casing leaves unchanged is
/// admitted, so that the table applies as it stands. The text is written
/// unchanged when colored's global switch is off, and otherwise painted with
/// `ESC[<code>m`; which of the two is the switch's.
#[verifier::external_body]
fn paint_color(text: &str, color: &'static str) -> (r: String)
    requires
        lower_ascii_name(color@),
    ensures
        r@ == text@ || r@ == painted(ansi_escape(color_code(color@)), text@),
{
    colored::Colorize::color(text, color).to_string()
}

/// The foreground code a status is painted with: colored does not know the
/// name `bright-black`, so expired and unregistered names show in white.
pub open spec fn status_color_code(s: ExpiryStatus) -> Seq<char> {
    match s {
        ExpiryStatus::Safe(_) => "32"@,
        ExpiryStatus::ExpiringSoon(_) => "33"@,
        ExpiryStatus::InGracePeriod(_) => "31"@,
        ExpiryStatus::Expired => "37"@,
        ExpiryStatus::NotRegistered => "37"@,
    }
}

proof fn lemma_status_color_code(s: ExpiryStatus)
    ensures
        lower_ascii_name(status_color_of(s)),
        color_code(status_color_of(s)) == status_color_code(s),
{
    reveal_strlit("green");
    reveal_strlit("yellow");
    reveal_strlit("red");
    reveal_strlit("bright-black");
    reveal_strlit("black");
    reveal_strlit("blue");
    reveal_strlit("magenta");
    reveal_strlit("purple");
    reveal_strlit("cyan");
    reveal_strlit("white");
    reveal_strlit("bright black");
    reveal_strlit("bright red");
    reveal_strlit("bright green");
    reveal_strlit("bright yellow");
    reveal_strlit("bright blue");
    reveal_strlit("bright magenta");
    reveal_strlit("bright cyan");
    reveal_strlit("bright white");
    reveal_strlit("30");
    reveal_strlit("31");
    reveal_strlit("32");
    reveal_strlit("33");
    reveal_strlit("37");
    let n = status_color_of(s);
    match s {
        ExpiryStatus::Safe(_) => {
            assert(n[0] == 'g' && "black"@[0] == 'b');
            assert(n != "black"@ && n != "red"@);
        },
        ExpiryStatus::ExpiringSoon(_) => {
            assert(n[0] == 'y' && "black"@[0] == 'b' && "green"@[0] == 'g');
            assert(n != "black"@ && n != "red"@ && n != "green"@);
        },
        ExpiryStatus::InGracePeriod(_) => {
            assert(n.len() == 3);
            assert(n != "black"@);
        },
        _ => {
            assert(n.len() == 12);
            assert("black"@.len() == 5 && "red"@.len() == 3 && "green"@.len() == 5 && "yellow"@.len() == 6);
            assert("blue"@.len() == 4 && "magenta"@.len() == 7 && "purple"@.len() == 6 && "cyan"@.len() == 4);
            assert("white"@.len() == 5 && "bright red"@.len() == 10 && "bright green"@.len() == 12);
            assert("bright yellow"@.len() == 13 && "bright blue"@.len() == 11 && "bright magenta"@.len() == 14);
            assert("bright cyan"@.len() == 11 && "bright white"@.len() == 12);
            assert("bright green"@[7] == 'g' && n[7] == 'b' && "bright white"@[7] == 'w');
            assert(n[6] == '-');
            assert("bright black"@[6] == ' ');
            assert(n != "black"@ && n != "red"@ && n != "green"@ && n != "yellow"@ && n != "blue"@);
            assert(n != "magenta"@ && n != "purple"@ && n != "cyan"@ && n != "white"@ && n != "bright black"@);
            assert(n != "bright red"@ && n != "bright green"@ && n != "bright yellow"@ && n != "bright blue"@);
            assert(n != "bright magenta"@ && n != "bright cyan"@ && n != "bright white"@);
        },
    }
}

/// The status line text of a status.
pub open spec fn status_text_of(s: ExpiryStatus) -> Seq<char> {
    match s {
        ExpiryStatus::Safe(e) => "Safe (expires on "@ + day_text(e) + ")"@,
        ExpiryStatus::ExpiringSoon(e) => "Expiring soon (expires on "@ + day_text(e) + ")"@,
        ExpiryStatus::InGracePeriod(e) => "In grace period (expired on "@ + day_text(e) + ")"@,
        ExpiryStatus::Expired => "Expired and available"@,
        ExpiryStatus::NotRegistered => "Not registered"@,
    }
}

/// The color a status is shown in.
pub open spec fn status_color_of(s: ExpiryStatus) -> Seq<char> {
    match s {
        ExpiryStatus::Safe(_) => "green"@,
        ExpiryStatus::ExpiringSoon(_) => "yellow"@,
        ExpiryStatus::InGracePeriod(_) => "red"@,
        ExpiryStatus::Expired => "bright-black"@,
        ExpiryStatus::NotRegistered => "bright-black"@,
    }
}

/// Whether the date a status carries can be written.
pub open spec fn has_printable_date(s: ExpiryStatus) -> bool {
    match s {
        ExpiryStatus::Safe(e) => FIRST_DATE_SECOND <= e <= LAST_DATE_SECOND,
        ExpiryStatus::ExpiringSoon(e) => FIRST_DATE_SECOND <= e <= LAST_DATE_SECOND,
        ExpiryStatus::InGracePeriod(e) => FIRST_DATE_SECOND <= e <= LAST_DATE_SECOND,
        _ => true,
    }
}

impl ExpiryStatus {
    /// The status of a name expiring at `expires_at`, seen at `now`.
    pub fn status_at(expires_at: Option<i64>, now: i64) -> (r: Self)
        ensures
            r == expiry_status_at(expires_at, now),
    {
        match expires_at {
            Some(e) => {
                let n = now as i128;
                let e2 = e as i128;
                if n > e2 + 7_776_000 {
                    ExpiryStatus::Expired
                } else if n > e2 {
                    ExpiryStatus::InGracePeriod(e)
                } else if n > e2 - 2_592_000 {
                    ExpiryStatus::ExpiringSoon(e)
                } else {
                    ExpiryStatus::Safe(e)
                }
            },
            None => ExpiryStatus::NotRegistered,
        }
    }

    /// The status of a name expiring at `expires_at`, seen now.
    pub fn from_expires_at(expires_at: Option<i64>) -> (r: Self)
        ensures
            exists|now: i64| r == expiry_status_at(expires_at, now),
    {
        let now = utc_now_seconds();
        Self::status_at(expires_at, now)
    }

    /// The text shown for a status.
    pub fn text(&self) -> (r: String)
        requires
            has_printable_date(*self),
        ensures
            r@ == status_text_of(*self),
    {
        match self {
            ExpiryStatus::Safe(e) => {
                let mut r = string_of("Safe (expires on ");
                let d = format_day(*e);
                r.append(d.as_str());
                r.append(")");
                r
            },
            ExpiryStatus::ExpiringSoon(e) => {
                let mut r = string_of("Expiring soon (expires on ");
                let d = format_day(*e);
                r.append(d.as_str());
                r.append(")");
                r
            },
            ExpiryStatus::InGracePeriod(e) => {
                let mut r = string_of("In grace period (expired on ");
                let d = format_day(*e);
                r.append(d.as_str());
                r.append(")");
                r
            },
            ExpiryStatus::Expired => string_of("Expired and available"),
            ExpiryStatus::NotRegistered => string_of("Not registered"),
        }
    }

    /// The color a status is shown in.
    pub fn color(&self) -> (r: &'static str)
        ensures
            r@ == status_color_of(*self),
    {
        match self {
            ExpiryStatus::Safe(_) => "green",
            ExpiryStatus::ExpiringSoon(_) => "yellow",
            ExpiryStatus::InGracePeriod(_) => "red",
            ExpiryStatus::Expired => "bright-black",
            ExpiryStatus::NotRegistered => "bright-black",
        }
    }
}

/// The line reported for a watched name: `name: status`. For cron output the
/// status text is plain; otherwise it is handed to colored with the status's
/// color, which writes it plain or painted as its global switch says.
pub fn notification(name: &str, status: &ExpiryStatus, cron: bool) -> (r: String)
    requires
        has_printable_date(*status),
    ensures
        cron ==> r@ == name@ + ": "@ + status_text_of(*status),
        !cron ==> (r@ == name@ + ": "@ + status_text_of(*status)
            || r@ == name@ + ": "@ + painted(ansi_escape(status_color_code(*status)), status_text_of(*status))),
{
    proof {
        lemma_status_color_code(*status);
    }
    let text = status.text();
    let mut r = string_of(name);
    r.append(": ");
    if cron {
        r.append(text.as_str());
    } else {
        let painted = paint_color(text.as_str(), status.color());
        r.append(painted.as_str());
    }
    r
}

/// The names a watchlist holds, as text.
pub open spec fn names_view(v: Seq<String>) -> Seq<Seq<char>> {
    v.map_values(|s: String| s@)
}

/// No name occurs twice.
pub open spec fn distinct_names(v: Seq<Seq<char>>) -> bool {
    forall|i: int, j: int| 0 <= i < j < v.len() ==> v[i] != v[j]
}

/// Where `name` first occurs in `v` (`v.len()` when it does not).
pub open spec fn position_in(v: Seq<Seq<char>>, name: Seq<char>) -> int
    decreases v.len(),
{
    if v.len() == 0 {
        0
    } else if v[0] == name {
        0
    } else {
        1 + position_in(v.drop_first(), name)
    }
}

/// The watchlist after adding `name`: appended unless already there.
pub open spec fn after_add(v: Seq<Seq<char>>, name: Seq<char>) -> Seq<Seq<char>> {
    if v.contains(name) {
        v
    } else {
        v.push(name)
    }
}

/// The watchlist after removing `name`: its first occurrence goes.
pub open spec fn after_remove(v: Seq<Seq<char>>, name: Seq<char>) -> Seq<Seq<char>> {
    if v.contains(name) {
        v.remove(position_in(v, name))
    } else {
        v
    }
}

proof fn lemma_position_in(v: Seq<Seq<char>>, name: Seq<char>, i: int)
    requires
        0 <= i < v.len(),
        v[i] == name,
        forall|j: int| 0 <= j < i ==> v[j] != name,
    ensures
        position_in(v, name) == i,
    decreases v.len(),
{
    if i > 0 {
        assert forall|j: int| 0 <= j < i - 1 implies v.drop_first()[j] != name by {
            assert(v.drop_first()[j] == v[j + 1]);
        }
        lemma_position_in(v.drop_first(), name, i - 1);
    }
}

/// Removing a name that was just added to a list without it gives back the
/// list.
pub proof fn lemma_remove_undoes_add(v: Seq<Seq<char>>, name: Seq<char>)
    requires
        !v.contains(name),
    ensures
        after_remove(after_add(v, name), name) == v,
{
    let w = v.push(name);
    assert(w[v.len() as int] == name);
    assert(w.contains(name));
    assert forall|j: int| 0 <= j < v.len() implies w[j] != name by {
        assert(w[j] == v[j]);
    }
    lemma_position_in(w, name, v.len() as int);
    assert(w.remove(v.len() as int) =~= v);
}

/// Adding a name keeps names distinct, and the name is then watched.
pub proof fn lemma_add_keeps_distinct(v: Seq<Seq<char>>, name: Seq<char>)
    requires
        distinct_names(v),
    ensures
        distinct_names(after_add(v, name)),
        after_add(v, name).contains(name),
{
    if !v.contains(name) {
        let w = v.push(name);
        assert(w[v.len() as int] == name);
        assert forall|i: int, j: int| 0 <= i < j < w.len() implies w[i] != w[j] by {
            if j == v.len() {
                assert(w[i] == v[i]);
            }
        }
    }
}

/// Removing a name keeps names distinct, and the name is then no longer
/// watched.
pub proof fn lemma_remove_clears_name(v: Seq<Seq<char>>, name: Seq<char>)
    requires
        distinct_names(v),
    ensures
        distinct_names(after_remove(v, name)),
        !after_remove(v, name).contains(name),
{
    if v.contains(name) {
        let i = choose|i: int| 0 <= i < v.len() && v[i] == name;
        assert forall|j: int| 0 <= j < i implies v[j] != name by {}
        lemma_position_in(v, name, i);
        let w = v.remove(i);
        assert forall|a: int| 0 <= a < w.len() implies w[a] != name by {
            if a < i {
                assert(w[a] == v[a]);
            } else {
                assert(w[a] == v[a + 1]);
            }
        }
        assert forall|a: int, b: int| 0 <= a < b < w.len() implies w[a] != w[b] by {
            if b < i {
                assert(w[a] == v[a] && w[b] == v[b]);
            } else if a < i {
                assert(w[a] == v[a] && w[b] == v[b + 1]);
            } else {
                assert(w[a] == v[a + 1] && w[b] == v[b + 1]);
            }
        }
    }
}

/// The names a user watches for expiry.
#[derive(Clone, Debug)]
pub struct Watchlist {
    pub names: Vec<String>,
}

impl Watchlist {
    /// The watched names, as text.
    pub open spec fn view_names(&self) -> Seq<Seq<char>> {
        names_view(self.names@)
    }

    /// An empty watchlist.
    pub fn new() -> (r: Self)
        ensures
            r.view_names() == Seq::<Seq<char>>::empty(),
    {
        let r = Watchlist { names: Vec::new() };
        assert(r.view_names() =~= Seq::<Seq<char>>::empty());
        r
    }

    /// Whether `name` is watched.
    pub fn contains(&self, name: &str) -> (r: bool)
        ensures
            r == self.view_names().contains(name@),
    {
        let mut i: usize = 0;
        while i < self.names.len()
            invariant
                i <= self.names@.len(),
                forall|j: int| 0 <= j < i ==> self.view_names()[j] != name@,
            decreases self.names@.len() - i,
        {
            if str_eq(self.names[i].as_str(), name) {
                assert(self.view_names()[i as int] == name@);
                return true;
            }
            i += 1;
        }
        proof {
            if self.view_names().contains(name@) {
                let j = choose|j: int| 0 <= j < self.view_names().len() && self.view_names()[j] == name@;
            }
        }
        false
    }

    /// Adds `name` unless it is already watched; true when it was added.
    pub fn add(&mut self, name: &str) -> (added: bool)
        ensures
            added == !old(self).view_names().contains(name@),
            final(self).view_names() == after_add(old(self).view_names(), name@),
    {
        if self.contains(name) {
            return false;
        }
        let ghost before = self.names@;
        self.names.push(string_of(name));
        assert(names_view(self.names@) =~= names_view(before).push(name@));
        true
    }

    /// Removes the first occurrence of `name`; true when it was watched.
    pub fn remove(&mut self, name: &str) -> (removed: bool)
        ensures
            removed == old(self).view_names().contains(name@),
            final(self).view_names() == after_remove(old(self).view_names(), name@),
    {
        let ghost before = self.names@;
        let mut i: usize = 0;
        while i < self.names.len()
            invariant
                i <= self.names@.len(),
                self.names@ == before,
                before == old(self).names@,
                forall|j: int| 0 <= j < i ==> names_view(before)[j] != name@,
            decreases self.names@.len() - i,
        {
            if str_eq(self.names[i].as_str(), name) {
                assert(names_view(before)[i as int] == name@);
                proof {
                    lemma_position_in(names_view(before), name@, i as int);
                }
                self.names.remove(i);
                assert(names_view(self.names@) =~= names_view(before).remove(i as int));
                return true;
            }
            i += 1;
        }
        proof {
            if names_view(before).contains(name@) {
                let j = choose|j: int| 0 <= j < names_view(before).len() && names_view(before)[j] == name@;
            }
        }
        false
    }

    /// The lines `watch list` prints.
    pub fn list_lines(&self) -> (r: Vec<String>)
        ensures
            self.view_names().len() == 0 ==> names_view(r@) == seq!["The watchlist is empty."@],
            self.view_names().len() > 0 ==> names_view(r@) == seq!["Watched names:"@]
                + self.view_names().map_values(|n: Seq<char>| "- "@ + n),
    {
        let mut r: Vec<String> = Vec::new();
        if self.names.len() == 0 {
            r.push(string_of("The watchlist is empty."));
            assert(names_view(r@) =~= seq!["The watchlist is empty."@]);
            return r;
        }
        r.push(string_of("Watched names:"));
        let mut i: usize = 0;
        while i < self.names.len()
            invariant
                i <= self.names@.len(),
                names_view(r@) == seq!["Watched names:"@] + self.view_names().subrange(0, i as int).map_values(|n: Seq<char>| "- "@ + n),
            decreases self.names@.len() - i,
        {
            let mut line = string_of("- ");
            line.append(self.names[i].as_str());
            let ghost before = r@;
            let ghost lv = line@;
            assert(lv == "- "@ + self.view_names()[i as int]);
            r.push(line);
            assert(self.view_names().subrange(0, i + 1).map_values(|n: Seq<char>| "- "@ + n)
                =~= self.view_names().subrange(0, i as int).map_values(|n: Seq<char>| "- "@ + n).push(lv));
            assert(names_view(r@) =~= names_view(before).push(lv));
            assert(names_view(r@) =~= seq!["Watched names:"@] + self.view_names().subrange(0, i + 1).map_values(|n: Seq<char>| "- "@ + n));
            i += 1;
        }
        assert(self.view_names().subrange(0, i as int) =~= self.view_names());
        r
    }
}

/// What `watch add` prints.
pub fn add_message(name: &str, added: bool) -> (r: String)
    ensures
        added ==> r@ == "Added '"@ + name@ + "' to the watchlist."@,
        !added ==> r@ == "'"@ + name@ + "' is already in the watchlist."@,
{
    if added {
        let mut r = string_of("Added '");
        r.append(name);
        r.append("' to the watchlist.");
        r
    } else {
        let mut r = string_of("'");
        r.append(name);
        r.append("' is already in the watchlist.");
        r
    }
}

/// What `watch remove` prints.
pub fn remove_message(name: &str, removed: bool) -> (r: String)
    ensures
        removed ==> r@ == "Removed '"@ + name@ + "' from the watchlist."@,
        !removed ==> r@ == "'"@ + name@ + "' is not in the watchlist."@,
{
    if removed {
        let mut r = string_of("Removed '");
        r.append(name);
        r.append("' from the watchlist.");
        r
    } else {
        let mut r = string_of("'");
        r.append(name);
        r.append("' is not in the watchlist.");
        r
    }
}

} // verus!
