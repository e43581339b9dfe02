use vstd::prelude::*;
use vstd::string::*;
use vstd::utf8::encode_utf8;
use ratatui::layout::{Constraint, Flex, Layout, Rect};

use crate::service_id::ServiceId;
use crate::supervisor::{ServiceStatus, StatusView};

verus! {

broadcast use vstd::string::group_string_axioms;

/// A rectangle of terminal cells.
#[derive(Clone, Copy, Debug, PartialEq, Eq, Structural)]
pub struct Area {
    pub x: u16,
    pub y: u16,
    pub width: u16,
    pub height: u16,
}

/// Whether the rectangle lies within the terminal's coordinate range, as
/// every rectangle made by `Rect::new` does.
pub open spec fn fits(a: Area) -> bool {
    a.x + a.width <= u16::MAX && a.y + a.height <= u16::MAX
}

/// The colours the startup screen uses.
#[derive(Clone, Copy, Debug, PartialEq, Eq, Structural)]
pub enum Color {
    Cyan,
    Yellow,
    DarkGray,
    White,
    Green,
    Gray,
    Red,
}

/// Write `text` at column `x`, row `y`, in `color`.
#[derive(Debug)]
pub struct DrawCommand {
    pub x: u16,
    pub y: u16,
    pub text: String,
    pub color: Color,
}

pub struct DrawView {
    pub x: u16,
    pub y: u16,
    pub text: Seq<char>,
    pub color: Color,
}

impl View for DrawCommand {
    type V = DrawView;

    open spec fn view(&self) -> DrawView {
        DrawView { x: self.x, y: self.y, text: self.text@, color: self.color }
    }
}

pub open spec fn draw_views(v: Seq<DrawCommand>) -> Seq<DrawView> {
    v.map_values(|d: DrawCommand| d@)
}

/// The length in bytes of the UTF-8 encoding of `s` (what `str::len` gives).
pub open spec fn byte_len(s: Seq<char>) -> nat {
    encode_utf8(s).len()
}

/// The column at which a text of `text_len` bytes is centred in `area`
/// (the left edge when the text is wider than the area).
pub open spec fn centered_x_view(area: Area, text_len: u16) -> u16 {
    if area.width >= text_len {
        (area.x + (area.width - text_len) / 2) as u16
    } else {
        area.x
    }
}

/// Column at which a text of `text_len` bytes is centred in `area`. Lengths
/// beyond `u16::MAX` are truncated to 16 bits.
pub fn centered_x(area: Area, text_len: usize) -> (x: u16)
    requires
        fits(area),
    ensures
        x == centered_x_view(area, text_len as u16),
        area.x <= x <= area.x + area.width,
{
    #[verifier::truncate]
    let len = text_len as u16;
    if area.width >= len {
        area.x + (area.width - len) / 2
    } else {
        area.x
    }
}

/// The label and colour shown for a status.
pub open spec fn status_label(s: StatusView) -> (Seq<char>, Color) {
    match s {
        StatusView::Running { .. } => ("RUNNING"@, Color::Green),
        StatusView::Stopped => ("STOPPED"@, Color::DarkGray),
        StatusView::Starting => ("STARTING"@, Color::Yellow),
        StatusView::Unavailable => ("UNAVAILABLE"@, Color::Red),
        StatusView::Failed { .. } => ("FAILED"@, Color::Red),
    }
}

pub fn format_status(status: &ServiceStatus) -> (r: (&'static str, Color))
    ensures
        (r.0@, r.1) == status_label(status@),
{
    match status {
        ServiceStatus::Running { .. } => ("RUNNING", Color::Green),
        ServiceStatus::Stopped => ("STOPPED", Color::DarkGray),
        ServiceStatus::Starting => ("STARTING", Color::Yellow),
        ServiceStatus::Unavailable => ("UNAVAILABLE", Color::Red),
        ServiceStatus::Failed { .. } => ("FAILED", Color::Red),
    }
}

/// `n` copies of `c`.
pub open spec fn repeat_char(c: char, n: nat) -> Seq<char> {
    Seq::new(n, |i: int| c)
}

fn repeat(piece: &str, n: usize) -> (r: String)
    requires
        piece@.len() == 1,
    ensures
        r@ == repeat_char(piece@[0], n as nat),
{
    let mut r = String::from_str("");
    let mut i: usize = 0;
    proof {
        reveal_strlit("");
    }
    while i < n
        invariant
            i <= n,
            piece@.len() == 1,
            r@ == repeat_char(piece@[0], i as nat),
        decreases n - i,
    {
        r = r.concat(piece);
        i = i + 1;
        assert(r@ =~= repeat_char(piece@[0], i as nat));
    }
    r
}

/// `s` padded on the right with `fill` to `width` characters (as the `{:<w}`
/// formats do); longer texts are kept whole.
pub open spec fn pad_right(s: Seq<char>, fill: char, width: nat) -> Seq<char> {
    if s.len() >= width {
        s
    } else {
        s + repeat_char(fill, (width - s.len()) as nat)
    }
}

fn padded(s: &str, fill: &str, width: usize) -> (r: String)
    requires
        fill@.len() == 1,
    ensures
        r@ == pad_right(s@, fill@[0], width as nat),
{
    let n = s.unicode_len();
    if n >= width {
        String::from_str(s)
    } else {
        String::from_str(s).concat(repeat(fill, width - n).as_str())
    }
}

/// The title banner.
pub open spec fn banner() -> Seq<Seq<char>> {
    seq![
        "╔══════════════════════════════════════╗"@,
        "║         PlaceNet Home Server         ║"@,
        "║        ─────────────────────         ║"@,
        "║          Process Supervisor          ║"@,
        "╚══════════════════════════════════════╝"@,
    ]
}

/// The commands offered to the operator: key and description.
pub open spec fn command_list() -> Seq<(Seq<char>, Seq<char>)> {
    seq![
        ("start"@, "Start all services"@),
        ("stop"@, "Stop all services"@),
        ("pause"@, "Pause service polling"@),
        ("uninstall"@, "Remove and clean up"@),
        ("q / Ctrl+C"@, "Quit"@),
    ]
}

fn banner_line(i: usize) -> (r: &'static str)
    requires
        i < 5,
    ensures
        r@ == banner()[i as int],
{
    if i == 0 {
        "╔══════════════════════════════════════╗"
    } else if i == 1 {
        "║         PlaceNet Home Server         ║"
    } else if i == 2 {
        "║        ─────────────────────         ║"
    } else if i == 3 {
        "║          Process Supervisor          ║"
    } else {
        "╚══════════════════════════════════════╝"
    }
}

fn command_entry(i: usize) -> (r: (&'static str, &'static str))
    requires
        i < 5,
    ensures
        (r.0@, r.1@) == command_list()[i as int],
{
    if i == 0 {
        ("start", "Start all services")
    } else if i == 1 {
        ("stop", "Stop all services")
    } else if i == 2 {
        ("pause", "Pause service polling")
    } else if i == 3 {
        ("uninstall", "Remove and clean up")
    } else {
        ("q / Ctrl+C", "Quit")
    }
}

/// Text centred on one row of `area`.
pub open spec fn centered_text(area: Area, y: u16, text: Seq<char>, color: Color) -> DrawView {
    DrawView { x: centered_x_view(area, (byte_len(text) as usize) as u16), y, text, color }
}

fn centered_command(area: Area, y: u16, text: &str, color: Color) -> (d: DrawCommand)
    requires
        fits(area),
    ensures
        d@ == centered_text(area, y, text@, color),
{
    DrawCommand { x: centered_x(area, text.len()), y, text: String::from_str(text), color }
}

/// How many of `n` lines fit below row `first` of `area` (rows from `first`
/// on are drawn until the bottom of the area is reached).
pub open spec fn lines_shown(area: Area, first: int, n: nat) -> nat {
    let room = area.y + area.height - first;
    if room <= 0 {
        0
    } else if room < n {
        room as nat
    } else {
        n
    }
}

/// The banner, centred line by line, as far as the area is high.
pub open spec fn title_view(area: Area) -> Seq<DrawView> {
    Seq::new(lines_shown(area, area.y as int, 5), |i: int| centered_text(area, (area.y + i) as u16, banner()[i], Color::Cyan))
}

/// Draw the banner in `area`.
pub fn title_commands(area: Area) -> (r: Vec<DrawCommand>)
    requires
        fits(area),
    ensures
        draw_views(r@) == title_view(area),
{
    let mut r: Vec<DrawCommand> = Vec::new();
    let mut i: usize = 0;
    while i < 5
        invariant
            fits(area),
            i <= 5,
            i <= lines_shown(area, area.y as int, 5),
            draw_views(r@) == title_view(area).take(i as int),
        ensures
            i == lines_shown(area, area.y as int, 5),
            draw_views(r@) == title_view(area).take(i as int),
        decreases 5 - i,
    {
        let y = area.y + i as u16;
        if y >= area.y + area.height {
            break;
        }
        let line = banner_line(i);
        let d = centered_command(area, y, line, Color::Cyan);
        let ghost prev = r@;
        r.push(d);
        proof {
            assert(i < lines_shown(area, area.y as int, 5));
            assert(title_view(area)[i as int] == d@);
            assert(draw_views(r@) =~= draw_views(prev).push(d@));
            assert(title_view(area).take(i + 1) =~= title_view(area).take(i as int).push(d@));
        }
        i = i + 1;
    }
    assert(draw_views(r@) =~= title_view(area));
    r
}

pub open spec fn entries_view(v: Seq<(ServiceId, ServiceStatus)>) -> Seq<(ServiceId, StatusView)> {
    v.map_values(|e: (ServiceId, ServiceStatus)| (e.0, e.1@))
}

/// The dotted name part of a service's row: `"  "` and the name padded with
/// dots to 20 characters.
pub open spec fn status_left(id: ServiceId) -> Seq<char> {
    "  "@ + pad_right(id.name_view(), '.', 20)
}

/// The status part of a service's row: a space and the status label.
pub open spec fn status_right(s: StatusView) -> Seq<char> {
    " "@ + status_label(s).0
}

/// The column at which a service's row starts: the whole row is centred.
pub open spec fn status_row_x(area: Area, id: ServiceId, s: StatusView) -> u16 {
    centered_x_view(area, (byte_len(status_left(id) + status_right(s)) as usize) as u16)
}

/// The two pieces of service row `k`: the name in white, then the status
/// in its colour, 22 columns further right.
pub open spec fn status_rows_view(area: Area, entries: Seq<(ServiceId, StatusView)>, rows: nat) -> Seq<DrawView> {
    Seq::new(2 * rows, |j: int| {
        let e = entries[j / 2];
        let y = (area.y + 2 + j / 2) as u16;
        let x = status_row_x(area, e.0, e.1);
        if j % 2 == 0 {
            DrawView { x, y, text: status_left(e.0), color: Color::White }
        } else {
            DrawView { x: (x + 22) as u16, y, text: status_right(e.1), color: status_label(e.1).1 }
        }
    })
}

/// The heading and rule above a list.
pub open spec fn section_head(area: Area, title: Seq<char>) -> Seq<DrawView> {
    seq![
        centered_text(area, area.y, title, Color::Yellow),
        centered_text(area, (area.y + 1) as u16, repeat_char('─', 36), Color::DarkGray),
    ]
}

/// The service section: heading, rule, and one row per service as far as the
/// area is high.
pub open spec fn statuses_view(area: Area, entries: Seq<(ServiceId, StatusView)>) -> Seq<DrawView> {
    section_head(area, " Services "@) + status_rows_view(area, entries, lines_shown(area, area.y + 2, entries.len()))
}

/// The section's rows stay within the terminal's coordinates.
pub open spec fn statuses_fit(area: Area, entries: Seq<(ServiceId, StatusView)>) -> bool {
    &&& area.y + 1 <= u16::MAX
    &&& entries.len() > 0 ==> area.y + 2 <= u16::MAX
    &&& forall|k: int| 0 <= k < lines_shown(area, area.y + 2, entries.len())
        ==> #[trigger] status_row_x(area, entries[k].0, entries[k].1) + 22 <= u16::MAX
}

fn section_head_commands(area: Area, title: &str) -> (r: Vec<DrawCommand>)
    requires
        fits(area),
        area.y + 1 <= u16::MAX,
    ensures
        draw_views(r@) == section_head(area, title@),
{
    let mut r: Vec<DrawCommand> = Vec::new();
    r.push(centered_command(area, area.y, title, Color::Yellow));
    proof {
        reveal_strlit("─");
    }
    let rule = repeat("─", 36);
    r.push(centered_command(area, area.y + 1, rule.as_str(), Color::DarkGray));
    assert(draw_views(r@) =~= section_head(area, title@));
    r
}

/// Draw the service section in `area` from the services in display order.
pub fn status_section_commands(area: Area, entries: &Vec<(ServiceId, ServiceStatus)>) -> (r: Vec<DrawCommand>)
    requires
        fits(area),
        statuses_fit(area, entries_view(entries@)),
    ensures
        draw_views(r@) == statuses_view(area, entries_view(entries@)),
{
    let ghost ev = entries_view(entries@);
    let mut r = section_head_commands(area, " Services ");
    if entries.len() == 0 {
        assert(status_rows_view(area, ev, 0) =~= Seq::<DrawView>::empty());
        assert(draw_views(r@) =~= statuses_view(area, ev));
        return r;
    }
    let border_y: u16 = area.y + 1;
    let mut i: usize = 0;
    while i < entries.len()
        invariant
            fits(area),
            statuses_fit(area, ev),
            ev == entries_view(entries@),
            border_y == area.y + 1,
            area.y + 2 <= u16::MAX,
            i <= entries@.len(),
            i <= lines_shown(area, area.y + 2, ev.len()),
            draw_views(r@) == section_head(area, " Services "@) + status_rows_view(area, ev, i as nat),
        ensures
            i == lines_shown(area, area.y + 2, ev.len()),
            draw_views(r@) == section_head(area, " Services "@) + status_rows_view(area, ev, i as nat),
        decreases entries.len() - i,
    {
        let y = border_y + 1 + i as u16;
        if y >= area.y + area.height {
            break;
        }
        let id = entries[i].0;
        let (label, color) = format_status(&entries[i].1);
        proof {
            reveal_strlit(".");
        }
        let left = String::from_str("  ").concat(padded(id.name(), ".", 20).as_str());
        let right = String::from_str(" ").concat(label);
        let line = left.clone().concat(right.as_str());
        proof {
            reveal_strlit("  ");
            reveal_strlit(" ");
            reveal_strlit(".");
            assert(ev[i as int] == (entries@[i as int].0, entries@[i as int].1@));
            assert(line@ == status_left(id) + status_right(entries@[i as int].1@));
        }
        let x = centered_x(area, line.as_str().len());
        assert(x == status_row_x(area, ev[i as int].0, ev[i as int].1));
        let ghost prev = r@;
        let first = DrawCommand { x, y, text: left, color: Color::White };
        let second = DrawCommand { x: x + 22, y, text: right, color };
        r.push(first);
        r.push(second);
        proof {
            let rows = status_rows_view(area, ev, i as nat);
            let rows2 = status_rows_view(area, ev, (i + 1) as nat);
            assert(rows2[2 * i as int] == first@);
            assert(rows2[2 * i + 1] == second@);
            assert(rows2 =~= rows.push(first@).push(second@));
            assert(draw_views(r@) =~= draw_views(prev).push(first@).push(second@));
            assert(section_head(area, " Services "@) + rows2 =~= (section_head(area, " Services "@) + rows).push(first@).push(second@));
        }
        i = i + 1;
    }
    r
}

/// The key part of a command row: `"  "` and the key padded with spaces to
/// 14 characters.
pub open spec fn command_key_text(key: Seq<char>) -> Seq<char> {
    "  "@ + pad_right(key, ' ', 14)
}

/// The column at which command row `k` starts: key and description together
/// are centred.
pub open spec fn command_row_x(area: Area, k: int) -> u16 {
    centered_x_view(area, (byte_len(command_key_text(command_list()[k].0) + command_list()[k].1) as usize) as u16)
}

/// The column of the description of command row `k`.
pub open spec fn command_desc_x(area: Area, k: int) -> int {
    command_row_x(area, k) + ((byte_len(command_key_text(command_list()[k].0)) as usize) as u16)
}

pub open spec fn command_rows_view(area: Area, rows: nat) -> Seq<DrawView> {
    Seq::new(2 * rows, |j: int| {
        let k = j / 2;
        let y = (area.y + 2 + k) as u16;
        if j % 2 == 0 {
            DrawView { x: command_row_x(area, k), y, text: command_key_text(command_list()[k].0), color: Color::Green }
        } else {
            DrawView { x: command_desc_x(area, k) as u16, y, text: command_list()[k].1, color: Color::Gray }
        }
    })
}

/// The command section: heading, rule, and one row per command as far as the
/// area is high.
pub open spec fn commands_view(area: Area) -> Seq<DrawView> {
    section_head(area, " Commands "@) + command_rows_view(area, lines_shown(area, area.y + 2, 5))
}

/// The section's rows stay within the terminal's coordinates.
pub open spec fn commands_fit(area: Area) -> bool {
    &&& area.y + 2 <= u16::MAX
    &&& forall|k: int| 0 <= k < lines_shown(area, area.y + 2, 5) ==> #[trigger] command_desc_x(area, k) <= u16::MAX
}

/// Draw the command section in `area`.
pub fn commands_section_commands(area: Area) -> (r: Vec<DrawCommand>)
    requires
        fits(area),
        commands_fit(area),
    ensures
        draw_views(r@) == commands_view(area),
{
    let mut r = section_head_commands(area, " Commands ");
    let border_y: u16 = area.y + 1;
    let mut i: usize = 0;
    while i < 5
        invariant
            fits(area),
            commands_fit(area),
            border_y == area.y + 1,
            i <= 5,
            i <= lines_shown(area, area.y + 2, 5),
            draw_views(r@) == section_head(area, " Commands "@) + command_rows_view(area, i as nat),
        ensures
            i == lines_shown(area, area.y + 2, 5),
            draw_views(r@) == section_head(area, " Commands "@) + command_rows_view(area, i as nat),
        decreases 5 - i,
    {
        let y = border_y + 1 + i as u16;
        if y >= area.y + area.height {
            break;
        }
        let (key, desc) = command_entry(i);
        proof {
            reveal_strlit(" ");
            reveal_strlit("  ");
        }
        let key_str = String::from_str("  ").concat(padded(key, " ", 14).as_str());
        let line = key_str.clone().concat(desc);
        let x = centered_x(area, line.as_str().len());
        #[verifier::truncate]
        let key_len = key_str.as_str().len() as u16;
        assert(x == command_row_x(area, i as int));
        assert(x + key_len == command_desc_x(area, i as int));
        let ghost prev = r@;
        let first = DrawCommand { x, y, text: key_str, color: Color::Green };
        let second = DrawCommand { x: x + key_len, y, text: String::from_str(desc), color: Color::Gray };
        r.push(first);
        r.push(second);
        proof {
            let rows = command_rows_view(area, i as nat);
            let rows2 = command_rows_view(area, (i + 1) as nat);
            assert(rows2[2 * i as int] == first@);
            assert(rows2[2 * i + 1] == second@);
            assert(rows2 =~= rows.push(first@).push(second@));
            assert(draw_views(r@) =~= draw_views(prev).push(first@).push(second@));
            assert(section_head(area, " Commands "@) + rows2 =~= (section_head(area, " Commands "@) + rows).push(first@).push(second@));
        }
        i = i + 1;
    }
    r
}

/// The order in which services are listed: by name.
pub open spec fn by_name() -> Seq<ServiceId> {
    seq![ServiceId::CloudGateway, ServiceId::Gateway, ServiceId::Http, ServiceId::Mosquitto, ServiceId::MqttClient]
}

/// The statuses, given one per service, as a map.
pub open spec fn status_map(v: Seq<(ServiceId, ServiceStatus)>) -> Map<ServiceId, StatusView> {
    Map::new(
        |id: ServiceId| exists|i: int| 0 <= i < v.len() && #[trigger] v[i].0 == id,
        |id: ServiceId| v[choose|i: int| 0 <= i < v.len() && #[trigger] v[i].0 == id].1@,
    )
}

pub open spec fn ids_unique(v: Seq<(ServiceId, ServiceStatus)>) -> bool {
    forall|i: int, j: int| 0 <= i < j < v.len() ==> #[trigger] v[i].0 != #[trigger] v[j].0
}

/// The services of `m` listed by name.
pub open spec fn sorted_view(m: Map<ServiceId, StatusView>) -> Seq<(ServiceId, StatusView)> {
    Seq::new(5, |k: int| k).filter(|k: int| m.contains_key(by_name()[k])).map_values(
        |k: int| (by_name()[k], m[by_name()[k]]),
    )
}

/// One service's entry, if it has a status.
fn entry_for(statuses: &Vec<(ServiceId, ServiceStatus)>, id: ServiceId) -> (r: Option<ServiceStatus>)
    requires
        ids_unique(statuses@),
    ensures
        r is Some <==> status_map(statuses@).contains_key(id),
        r matches Some(s) ==> s@ == status_map(statuses@)[id],
{
    let mut i: usize = 0;
    while i < statuses.len()
        invariant
            i <= statuses@.len(),
            ids_unique(statuses@),
            forall|j: int| 0 <= j < i ==> statuses@[j].0 != id,
        decreases statuses.len() - i,
    {
        if statuses[i].0 == id {
            proof {
                let c = choose|j: int| 0 <= j < statuses@.len() && #[trigger] statuses@[j].0 == id;
                if c != i as int {
                    if c < i as int {
                        assert(statuses@[c].0 != statuses@[i as int].0);
                    } else {
                        assert(statuses@[i as int].0 != statuses@[c].0);
                    }
                }
            }
            return Some(statuses[i].1.duplicate());
        }
        i = i + 1;
    }
    None
}

fn name_order(k: usize) -> (id: ServiceId)
    requires
        k < 5,
    ensures
        id == by_name()[k as int],
{
    if k == 0 {
        ServiceId::CloudGateway
    } else if k == 1 {
        ServiceId::Gateway
    } else if k == 2 {
        ServiceId::Http
    } else if k == 3 {
        ServiceId::Mosquitto
    } else {
        ServiceId::MqttClient
    }
}

/// The services listed by name, each with its status.
pub fn sorted_statuses(statuses: &Vec<(ServiceId, ServiceStatus)>) -> (r: Vec<(ServiceId, ServiceStatus)>)
    requires
        ids_unique(statuses@),
    ensures
        entries_view(r@) == sorted_view(status_map(statuses@)),
{
    let ghost m = status_map(statuses@);
    let ghost pred = |k: int| m.contains_key(by_name()[k]);
    let ghost f = |k: int| (by_name()[k], m[by_name()[k]]);
    let mut r: Vec<(ServiceId, ServiceStatus)> = Vec::new();
    let mut k: usize = 0;
    while k < 5
        invariant
            k <= 5,
            ids_unique(statuses@),
            m == status_map(statuses@),
            pred == (|k: int| m.contains_key(by_name()[k])),
            f == (|k: int| (by_name()[k], m[by_name()[k]])),
            entries_view(r@) == Seq::new(k as nat, |j: int| j).filter(pred).map_values(f),
        decreases 5 - k,
    {
        let id = name_order(k);
        let ghost prev = r@;
        let ghost idx = Seq::new(k as nat, |j: int| j);
        let ghost idx2 = Seq::new((k + 1) as nat, |j: int| j);
        proof {
            assert(idx2 =~= idx.push(k as int));
            reveal(Seq::filter);
            assert(idx2.drop_last() =~= idx);
        }
        match entry_for(statuses, id) {
            Some(st) => {
                r.push((id, st));
                proof {
                    assert(idx2.filter(pred) =~= idx.filter(pred).push(k as int));
                    assert(entries_view(r@) =~= entries_view(prev).push((id, m[id])));
                    assert(idx2.filter(pred).map_values(f) =~= idx.filter(pred).map_values(f).push(f(k as int)));
                }
            },
            None => {
                proof {
                    assert(idx2.filter(pred) =~= idx.filter(pred));
                }
            },
        }
        k = k + 1;
    }
    r
}

/// Strict lexicographic order of texts (by character).
pub open spec fn lex_less(a: Seq<char>, b: Seq<char>) -> bool
    decreases a.len(),
{
    if a.len() == 0 {
        b.len() > 0
    } else if b.len() == 0 {
        false
    } else if a[0] < b[0] {
        true
    } else if a[0] == b[0] {
        lex_less(a.subrange(1, a.len() as int), b.subrange(1, b.len() as int))
    } else {
        false
    }
}

/// Services are listed in the order of their names.
pub proof fn law_listed_by_name()
    ensures
        forall|i: int, j: int| 0 <= i < j < 5 ==> lex_less(#[trigger] by_name()[i].name_view(), #[trigger] by_name()[j].name_view()),
{
    reveal_strlit("CloudGateway");
    reveal_strlit("Gateway");
    reveal_strlit("Http");
    reveal_strlit("Mosquitto");
    reveal_strlit("MqttClient");
    let m = "Mosquitto"@;
    let q = "MqttClient"@;
    assert(m.subrange(1, m.len() as int)[0] == 'o');
    assert(q.subrange(1, q.len() as int)[0] == 'q');
    assert(lex_less(m, q)) by {
        reveal_with_fuel(lex_less, 2);
    }
}

/// The position of a service in [`by_name`].
pub open spec fn name_index(id: ServiceId) -> int {
    match id {
        ServiceId::CloudGateway => 0,
        ServiceId::Gateway => 1,
        ServiceId::Http => 2,
        ServiceId::Mosquitto => 3,
        ServiceId::MqttClient => 4,
    }
}

proof fn lemma_index_filter(n: nat, pred: spec_fn(int) -> bool)
    ensures
        ({
            let f = Seq::new(n, |k: int| k).filter(pred);
            &&& forall|i: int| 0 <= i < f.len() ==> 0 <= #[trigger] f[i] < n && pred(f[i])
            &&& forall|i: int, j: int| 0 <= i < j < f.len() ==> #[trigger] f[i] < #[trigger] f[j]
            &&& forall|k: int| 0 <= k < n && #[trigger] pred(k) ==> exists|i: int| 0 <= i < f.len() && #[trigger] f[i] == k
        }),
    decreases n,
{
    if n > 0 {
        let m = (n - 1) as nat;
        lemma_index_filter(m, pred);
        let idx = Seq::new(m, |k: int| k);
        let idx2 = Seq::new(n, |k: int| k);
        assert(idx2.drop_last() =~= idx);
        reveal(Seq::filter);
        let f = idx.filter(pred);
        let f2 = idx2.filter(pred);
        if pred(m as int) {
            assert(f2 =~= f.push(m as int));
            assert forall|k: int| 0 <= k < n && #[trigger] pred(k) implies exists|i: int| 0 <= i < f2.len() && #[trigger] f2[i] == k by {
                if k == m {
                    assert(f2[f.len() as int] == k);
                } else {
                    let i = choose|i: int| 0 <= i < f.len() && #[trigger] f[i] == k;
                    assert(f2[i] == k);
                }
            }
        } else {
            assert(f2 =~= f);
        }
    }
}

/// The startup screen lists every service that has a status, whatever that
/// status is, each once with its own status, and in the order of their
/// names; it lists no other service.
pub proof fn law_every_service_listed_by_name(m: Map<ServiceId, StatusView>)
    ensures
        ({
            let s = sorted_view(m);
            &&& forall|i: int| 0 <= i < s.len() ==> m.contains_key(#[trigger] s[i].0) && s[i].1 == m[s[i].0]
            &&& forall|id: ServiceId| #[trigger] m.contains_key(id) ==> exists|i: int| 0 <= i < s.len() && s[i].0 == id
            &&& forall|i: int, j: int| 0 <= i < j < s.len() ==> #[trigger] s[i].0 != #[trigger] s[j].0
                && lex_less(s[i].0.name_view(), s[j].0.name_view())
        }),
{
    let pred = |k: int| m.contains_key(by_name()[k]);
    let g = |k: int| (by_name()[k], m[by_name()[k]]);
    lemma_index_filter(5, pred);
    law_listed_by_name();
    let f = Seq::new(5, |k: int| k).filter(pred);
    let s = sorted_view(m);
    assert(s == f.map_values(g));
    assert forall|id: ServiceId| #[trigger] m.contains_key(id) implies exists|i: int| 0 <= i < s.len() && s[i].0 == id by {
        let k = name_index(id);
        assert(by_name()[k] == id);
        assert(pred(k));
        let i = choose|i: int| 0 <= i < f.len() && #[trigger] f[i] == k;
        assert(s[i].0 == id);
    }
    assert forall|i: int, j: int| 0 <= i < j < s.len() implies #[trigger] s[i].0 != #[trigger] s[j].0
        && lex_less(s[i].0.name_view(), s[j].0.name_view()) by {
        assert(f[i] < f[j]);
        assert(0 <= f[i] && f[j] < 5);
        assert(s[i].0 == by_name()[f[i]]);
        assert(s[j].0 == by_name()[f[j]]);
    }
}

/// How tall a band of a vertical layout should be.
#[derive(Clone, Copy, Debug, PartialEq, Eq, Structural)]
pub enum SizeRule {
    /// Exactly this many rows.
    Length(u16),
    /// At least this many rows.
    Min(u16),
}

/// Where the bands go when they do not fill the area.
#[derive(Clone, Copy, Debug, PartialEq, Eq, Structural)]
pub enum Alignment {
    Start,
    Center,
}

/// Whether `bands` are `n` bands of `area` stacked vertically from top to
/// bottom: each keeps the area's column and width, lies within the area's
/// rows, and has its bottom row number within 16 bits; and each band ends
/// at or above the row where any later band begins.
pub open spec fn band_shape(area: Area, bands: Seq<Area>, n: nat) -> bool {
    &&& bands.len() == n
    &&& forall|i: int| 0 <= i < bands.len() ==> #[trigger] bands[i].x == area.x && bands[i].width == area.width
        && area.y <= bands[i].y && bands[i].y + bands[i].height <= area.y + area.height
        && bands[i].y + bands[i].height <= u16::MAX
    &&& forall|i: int, j: int| 0 <= i < j < bands.len() ==> #[trigger] bands[i].y + bands[i].height <= #[trigger] bands[j].y
}

/// `ratatui::layout::Layout::vertical(..).flex(..).split(..)` with the given
/// rules (`Constraint::Length`, `Constraint::Min`) and alignment
/// (`Flex::Start`, `Flex::Center`). Claimed, as the solver's source shows:
/// there is one band per rule, keeping the area's column and width; every
/// band lies within the area's rows, since the solver requires every
/// boundary to lie between the area's top and bottom and each band's top to
/// be at or above its bottom, and rounding to whole rows keeps that order;
/// bands follow each other from top to bottom without overlapping, since the
/// gaps between bands are held at zero with the strength `SPACER_SIZE_EQ`,
/// which exceeds every constraint a gap could be traded against
/// (`Length`, `Min` and the growth of the outer gaps), so no optimum lets a
/// gap go below zero. Where exactly the bands lie is not claimed: the solver
/// walks hash maps seeded anew in each process, so where the optimum is not
/// unique the outcome may differ.
#[verifier::external_body]
fn split_vertically(area: Area, rules: &Vec<SizeRule>, align: Alignment) -> (r: Vec<Area>)
    ensures
        band_shape(area, r@, rules@.len()),
{
    let mut constraints: Vec<Constraint> = Vec::new();
    for rule in rules.iter() {
        constraints.push(match rule {
            SizeRule::Length(n) => Constraint::Length(*n),
            SizeRule::Min(n) => Constraint::Min(*n),
        });
    }
    let flex = match align {
        Alignment::Start => Flex::Start,
        Alignment::Center => Flex::Center,
    };
    let rect = Rect { x: area.x, y: area.y, width: area.width, height: area.height };
    let bands = Layout::vertical(constraints).flex(flex).split(rect);
    bands.iter().map(|b| Area { x: b.x, y: b.y, width: b.width, height: b.height }).collect()
}

/// The screen's bands (padding, title, spacing, content, padding) and the
/// content's bands (services, spacing, commands), as the layout solver lays
/// them out in `area`.
pub open spec fn screen_bands(area: Area, sections: Seq<Area>, content: Seq<Area>) -> bool {
    band_shape(area, sections, 5) && band_shape(sections[3], content, 3)
}

/// Whether `r` is what the screen draws with the title in `title`, the
/// services `entries` in `services`, and the commands in `commands`; `None`
/// when a row would fall outside the terminal's coordinates.
pub open spec fn drawn_in(title: Area, services: Area, commands: Area, entries: Seq<(ServiceId, StatusView)>, r: Option<Vec<DrawCommand>>) -> bool {
    &&& r is Some <==> statuses_fit(services, entries) && commands_fit(commands)
    &&& r matches Some(v) ==> draw_views(v@) == title_view(title) + statuses_view(services, entries) + commands_view(commands)
}

/// The startup screen.
pub struct StartupScreen;

impl StartupScreen {
    pub fn new() -> (s: StartupScreen) {
        StartupScreen
    }

    /// What the startup screen draws in `area` for the given service
    /// statuses (one per service): the title, the services by name, and the
    /// commands, each in its band of the layout (see [`StartupScreen::draw`]).
    /// `None` when a row would fall outside the terminal's 16-bit
    /// coordinates.
    pub fn render(&self, area: Area, statuses: &Vec<(ServiceId, ServiceStatus)>) -> (r: Option<Vec<DrawCommand>>)
        requires
            fits(area),
            ids_unique(statuses@),
            statuses@.len() <= 5,
        ensures
            exists|sections: Seq<Area>, content: Seq<Area>| #[trigger] screen_bands(area, sections, content)
                && drawn_in(sections[1], content[0], content[2], sorted_view(status_map(statuses@)), r),
    {
        let mut rules: Vec<SizeRule> = Vec::new();
        rules.push(SizeRule::Length(1));
        rules.push(SizeRule::Length(5));
        rules.push(SizeRule::Length(1));
        rules.push(SizeRule::Min(0));
        rules.push(SizeRule::Length(1));
        assert(rules@.len() == 5);
        let sections = split_vertically(area, &rules, Alignment::Center);
        let n = statuses.len() as u16;
        let mut content_rules_v: Vec<SizeRule> = Vec::new();
        content_rules_v.push(SizeRule::Length(2 + n + 1));
        content_rules_v.push(SizeRule::Length(1));
        content_rules_v.push(SizeRule::Length(8));
        assert(sections@[3].x == area.x && sections@[3].width == area.width);
        assert(sections@[1].x == area.x && sections@[1].width == area.width);
        assert(sections@[3].y + sections@[3].height <= u16::MAX);
        assert(sections@[1].y + sections@[1].height <= u16::MAX);
        assert(content_rules_v@.len() == 3);
        let content = split_vertically(sections[3], &content_rules_v, Alignment::Start);
        assert(content@[0].x == sections@[3].x && content@[0].width == sections@[3].width);
        assert(content@[2].x == sections@[3].x && content@[2].width == sections@[3].width);
        assert(content@[0].y + content@[0].height <= u16::MAX);
        assert(content@[2].y + content@[2].height <= u16::MAX);
        let r = Self::draw(sections[1], content[0], content[2], statuses);
        assert(screen_bands(area, sections@, content@));
        r
    }

    /// What the startup screen draws given its bands: the title in `title`,
    /// the services by name in `services`, and the commands in `commands`.
    /// `None` when a row would fall outside the terminal's 16-bit
    /// coordinates.
    pub fn draw(title: Area, services: Area, commands: Area, statuses: &Vec<(ServiceId, ServiceStatus)>) -> (r: Option<Vec<DrawCommand>>)
        requires
            fits(title),
            fits(services),
            fits(commands),
            ids_unique(statuses@),
        ensures
            drawn_in(title, services, commands, sorted_view(status_map(statuses@)), r),
    {
        let entries = sorted_statuses(statuses);
        if !Self::statuses_fit_check(services, &entries) || !Self::commands_fit_check(commands) {
            return None;
        }
        let mut out = title_commands(title);
        let mut middle = status_section_commands(services, &entries);
        let mut last = commands_section_commands(commands);
        let ghost a = draw_views(out@);
        let ghost b = draw_views(middle@);
        let ghost c = draw_views(last@);
        out.append(&mut middle);
        out.append(&mut last);
        assert(draw_views(out@) =~= a + b + c);
        Some(out)
    }

    /// Whether the service rows stay within the terminal's coordinates.
    fn statuses_fit_check(area: Area, entries: &Vec<(ServiceId, ServiceStatus)>) -> (r: bool)
        requires
            fits(area),
        ensures
            r == statuses_fit(area, entries_view(entries@)),
    {
        let ghost ev = entries_view(entries@);
        if area.y == u16::MAX {
            return false;
        }
        if entries.len() == 0 {
            assert(lines_shown(area, area.y + 2, ev.len()) == 0);
            return true;
        }
        if area.y > u16::MAX - 2 {
            return false;
        }
        let mut i: usize = 0;
        while i < entries.len()
            invariant
                fits(area),
                area.y + 2 <= u16::MAX,
                ev == entries_view(entries@),
                i <= entries@.len(),
                i <= lines_shown(area, area.y + 2, ev.len()),
                forall|k: int| 0 <= k < i ==> #[trigger] status_row_x(area, ev[k].0, ev[k].1) + 22 <= u16::MAX,
            ensures
                i == lines_shown(area, area.y + 2, ev.len()),
                forall|k: int| 0 <= k < i ==> #[trigger] status_row_x(area, ev[k].0, ev[k].1) + 22 <= u16::MAX,
            decreases entries.len() - i,
        {
            let y = area.y + 2 + i as u16;
            if y >= area.y + area.height {
                break;
            }
            let id = entries[i].0;
            let (label, _color) = format_status(&entries[i].1);
            proof {
                reveal_strlit(".");
                reveal_strlit("  ");
                reveal_strlit(" ");
                assert(ev[i as int] == (entries@[i as int].0, entries@[i as int].1@));
            }
            let left = String::from_str("  ").concat(padded(id.name(), ".", 20).as_str());
            let line = left.concat(" ").concat(label);
            assert(line@ =~= status_left(id) + status_right(entries@[i as int].1@));
            let x = centered_x(area, line.as_str().len());
            if x > u16::MAX - 22 {
                assert(x == status_row_x(area, ev[i as int].0, ev[i as int].1));
                assert(i < lines_shown(area, area.y + 2, ev.len()));
                return false;
            }
            i = i + 1;
        }
        true
    }

    /// Whether the command rows stay within the terminal's coordinates.
    fn commands_fit_check(area: Area) -> (r: bool)
        requires
            fits(area),
        ensures
            r == commands_fit(area),
    {
        if area.y > u16::MAX - 2 {
            return false;
        }
        let mut i: usize = 0;
        while i < 5
            invariant
                fits(area),
                area.y + 2 <= u16::MAX,
                i <= 5,
                i <= lines_shown(area, area.y + 2, 5),
                forall|k: int| 0 <= k < i ==> #[trigger] command_desc_x(area, k) <= u16::MAX,
            ensures
                i == lines_shown(area, area.y + 2, 5),
                forall|k: int| 0 <= k < i ==> #[trigger] command_desc_x(area, k) <= u16::MAX,
            decreases 5 - i,
        {
            let y = area.y + 2 + i as u16;
            if y >= area.y + area.height {
                break;
            }
            let (key, desc) = command_entry(i);
            proof {
                reveal_strlit(" ");
                reveal_strlit("  ");
            }
            let key_str = String::from_str("  ").concat(padded(key, " ", 14).as_str());
            let line = key_str.clone().concat(desc);
            let x = centered_x(area, line.as_str().len());
            #[verifier::truncate]
            let key_len = key_str.as_str().len() as u16;
            assert(x + key_len == command_desc_x(area, i as int));
            if x > u16::MAX - key_len {
                return false;
            }
            i = i + 1;
        }
        true
    }
}

} // verus!
