//! Game master dot commands typed into chat: the command grammar, the
//! number readers it uses, waypoint names and level changes.
use vstd::prelude::*;
use vstd::string::StringExecFns;
use vstd::string::StrSliceExecFns;
use crate::DEFAULT_MAX_PLAYER_LEVEL;
use crate::guid::ObjectGuid;
use crate::text::{
    append_decimal, decimal, chars_of, digits_end, digits_end_exec, is_ascii_alphanumeric_spec, is_digit, is_digit_spec, is_whitespace,
    is_whitespace_spec, parse_i32, parse_i32_spec, parse_u32, parse_u32_spec, skip_whitespace, skip_whitespace_exec,
    to_ascii_lowercase, to_ascii_lowercase_spec,
};

verus! {

// ---------------------------------------------------------------------------
// Text helpers

/// `String::push`: appends one character.
#[verifier::external_body]
fn push_char(text: &mut String, c: char)
    ensures
        final(text)@ == old(text)@.push(c),
{
    text.push(c);
}

/// The characters `s[from..to]` as a vector.
fn copy_range(s: &[char], from: usize, to: usize) -> (v: Vec<char>)
    requires
        from <= to <= s@.len(),
    ensures
        v@ == s@.subrange(from as int, to as int),
{
    let mut v: Vec<char> = Vec::new();
    let mut i = from;
    while i < to
        invariant
            from <= i <= to <= s@.len(),
            v@ == s@.subrange(from as int, i as int),
        decreases to - i,
    {
        v.push(s[i]);
        assert(v@ =~= s@.subrange(from as int, i + 1));
        i += 1;
    }
    v
}

/// Whether `s` reads exactly `literal`.
fn equals_str(s: &[char], literal: &str) -> (eq: bool)
    ensures
        eq == (s@ == literal@),
{
    let n = literal.unicode_len();
    if n != s.len() {
        return false;
    }
    let mut i: usize = 0;
    while i < n
        invariant
            n == literal@.len() == s@.len(),
            i <= n,
            s@.take(i as int) == literal@.take(i as int),
        decreases n - i,
    {
        if s[i] != literal.get_char(i) {
            assert(s@[i as int] != literal@[i as int]);
            return false;
        }
        assert(s@.take(i + 1) =~= s@.take(i as int).push(s@[i as int]));
        assert(literal@.take(i + 1) =~= literal@.take(i as int).push(literal@[i as int]));
        i += 1;
    }
    assert(s@ =~= s@.take(n as int));
    assert(literal@ =~= literal@.take(n as int));
    true
}

pub open spec fn starts_with(s: Seq<char>, prefix: Seq<char>) -> bool {
    prefix.len() <= s.len() && s.subrange(0, prefix.len() as int) == prefix
}

/// Whether `s` begins with `literal`.
fn starts_with_str(s: &[char], literal: &str) -> (yes: bool)
    ensures
        yes == starts_with(s@, literal@),
{
    let n = literal.unicode_len();
    if n > s.len() {
        return false;
    }
    let mut i: usize = 0;
    while i < n
        invariant
            n == literal@.len() <= s@.len(),
            i <= n,
            s@.subrange(0, i as int) == literal@.take(i as int),
        decreases n - i,
    {
        if s[i] != literal.get_char(i) {
            assert(s@.subrange(0, n as int)[i as int] != literal@[i as int]);
            return false;
        }
        assert(s@.subrange(0, i + 1) =~= s@.subrange(0, i as int).push(s@[i as int]));
        assert(literal@.take(i + 1) =~= literal@.take(i as int).push(literal@[i as int]));
        i += 1;
    }
    assert(literal@ =~= literal@.take(n as int));
    true
}

/// The index just after the last non-white-space character before `to`.
pub open spec fn trim_end_index(s: Seq<char>, to: int) -> int
    decreases to,
{
    if to <= 0 {
        0
    } else if !is_whitespace_spec(s[to - 1]) {
        to
    } else {
        trim_end_index(s, to - 1)
    }
}

/// `s` without leading and trailing white space, as `str::trim` gives it.
pub open spec fn trim(s: Seq<char>) -> Seq<char> {
    let rest = s.subrange(skip_whitespace(s, 0), s.len() as int);
    rest.subrange(0, trim_end_index(rest, rest.len() as int))
}

proof fn lemma_trim_end_bounds(s: Seq<char>, to: int)
    requires
        0 <= to <= s.len(),
    ensures
        0 <= trim_end_index(s, to) <= to,
    decreases to,
{
    if to > 0 {
        lemma_trim_end_bounds(s, to - 1);
    }
}

proof fn lemma_skip_bounds(s: Seq<char>, from: int)
    requires
        0 <= from <= s.len(),
    ensures
        from <= skip_whitespace(s, from) <= s.len(),
    decreases s.len() - from,
{
    if from < s.len() {
        lemma_skip_bounds(s, from + 1);
    }
}

fn trim_chars(s: &[char]) -> (t: Vec<char>)
    ensures
        t@ == trim(s@),
{
    let start = skip_whitespace_exec(s, 0);
    let rest = copy_range(s, start, s.len());
    let mut end = rest.len();
    proof { lemma_trim_end_bounds(rest@, rest@.len() as int); }
    while end > 0 && is_whitespace(rest[end - 1])
        invariant
            end <= rest@.len(),
            trim_end_index(rest@, rest@.len() as int) == trim_end_index(rest@, end as int),
        decreases end,
    {
        end -= 1;
    }
    copy_range(rest.as_slice(), 0, end)
}

/// ASCII letters lowered, every other character kept.
pub open spec fn ascii_lowercase(s: Seq<char>) -> Seq<char> {
    Seq::new(s.len(), |i: int| to_ascii_lowercase_spec(s[i]))
}

fn ascii_lowercase_chars(s: &[char]) -> (l: Vec<char>)
    ensures
        l@ == ascii_lowercase(s@),
{
    let mut l: Vec<char> = Vec::new();
    let mut i: usize = 0;
    while i < s.len()
        invariant
            i <= s.len(),
            l@ == ascii_lowercase(s@).take(i as int),
        decreases s.len() - i,
    {
        l.push(to_ascii_lowercase(s[i]));
        assert(l@ =~= ascii_lowercase(s@).take(i + 1));
        i += 1;
    }
    assert(ascii_lowercase(s@).take(s@.len() as int) =~= ascii_lowercase(s@));
    l
}

// ---------------------------------------------------------------------------
// Numbers in command arguments

/// The index of the first ASCII digit at or after `from` (the length when
/// there is none).
pub open spec fn first_digit_index(s: Seq<char>, from: int) -> int
    decreases s.len() - from,
{
    if from < 0 || from >= s.len() || is_digit_spec(s[from]) {
        if from < 0 { 0 } else if from > s.len() { s.len() as int } else { from }
    } else {
        first_digit_index(s, from + 1)
    }
}

/// The first run of ASCII digits in `s` read as a number; `None` without
/// digits or when the run does not fit.
pub open spec fn first_u32_spec(s: Seq<char>) -> Option<u32> {
    let start = first_digit_index(s, 0);
    if start >= s.len() {
        None
    } else {
        parse_u32_spec(s.subrange(start, digits_end(s, start)))
    }
}

/// After leading white space, an optional sign and the digits that follow,
/// read as a number; `None` without digits or when it does not fit.
pub open spec fn first_i32_spec(s: Seq<char>) -> Option<i32> {
    let start = skip_whitespace(s, 0);
    let digits_from = if start < s.len() && (s[start] == '+' || s[start] == '-') { start + 1 } else { start };
    let end = digits_end(s, digits_from);
    if end > digits_from {
        parse_i32_spec(s.subrange(start, end))
    } else {
        None
    }
}

fn first_digit_index_exec(s: &[char]) -> (i: usize)
    ensures
        i as int == first_digit_index(s@, 0),
        i <= s@.len(),
{
    let mut i: usize = 0;
    while i < s.len() && !is_digit(s[i])
        invariant
            i <= s@.len(),
            first_digit_index(s@, 0) == first_digit_index(s@, i as int),
        decreases s.len() - i,
    {
        i += 1;
    }
    i
}

proof fn lemma_digits_end_bounds(s: Seq<char>, from: int)
    requires
        0 <= from <= s.len(),
    ensures
        from <= digits_end(s, from) <= s.len(),
    decreases s.len() - from,
{
    if from < s.len() {
        lemma_digits_end_bounds(s, from + 1);
    }
}

fn first_u32_chars(s: &[char]) -> (value: Option<u32>)
    ensures
        value == first_u32_spec(s@),
{
    let start = first_digit_index_exec(s);
    if start >= s.len() {
        return None;
    }
    let end = digits_end_exec(s, start);
    parse_u32(s, start, end)
}

fn first_i32_chars(s: &[char]) -> (value: Option<i32>)
    ensures
        value == first_i32_spec(s@),
{
    let start = skip_whitespace_exec(s, 0);
    let digits_from = if start < s.len() && (s[start] == '+' || s[start] == '-') { start + 1 } else { start };
    let end = digits_end_exec(s, digits_from);
    if end > digits_from {
        parse_i32(s, start, end)
    } else {
        None
    }
}

/// The first run of digits in `input` as a number.
pub fn first_u32(input: &str) -> (value: Option<u32>)
    ensures
        value == first_u32_spec(input@),
{
    let chars = chars_of(input);
    first_u32_chars(chars.as_slice())
}

/// A signed number at the start of `input`, after white space.
pub fn first_i32(input: &str) -> (value: Option<i32>)
    ensures
        value == first_i32_spec(input@),
{
    let chars = chars_of(input);
    first_i32_chars(chars.as_slice())
}

// ---------------------------------------------------------------------------
// Levels and waypoints

/// The level `delta` levels from `old_level`, kept between 1 and the level cap.
pub fn gm_relative_level(old_level: u8, delta: i32) -> (level: u8)
    requires
        old_level + delta <= i32::MAX,
    ensures
        level == if old_level + delta < 1 {
            1
        } else if old_level + delta > DEFAULT_MAX_PLAYER_LEVEL {
            DEFAULT_MAX_PLAYER_LEVEL
        } else {
            (old_level + delta) as u8
        },
{
    let sum = old_level as i32 + delta;
    if sum < 1 {
        1
    } else if sum > DEFAULT_MAX_PLAYER_LEVEL as i32 {
        DEFAULT_MAX_PLAYER_LEVEL
    } else {
        sum as u8
    }
}

/// What a level change tells the game master: "Level remains N." when
/// nothing changes, else "Your level increased from A to B." (or
/// "decreased").
pub open spec fn level_change_message_spec(old_level: u8, new_level: u8) -> Seq<char> {
    if new_level == old_level {
        "Level remains "@ + decimal(new_level as nat) + "."@
    } else if new_level > old_level {
        "Your level increased from "@ + decimal(old_level as nat) + " to "@ + decimal(new_level as nat) + "."@
    } else {
        "Your level decreased from "@ + decimal(old_level as nat) + " to "@ + decimal(new_level as nat) + "."@
    }
}

/// The system message that reports a level change.
pub fn gm_level_change_message(old_level: u8, new_level: u8) -> (message: String)
    ensures
        message@ == level_change_message_spec(old_level, new_level),
{
    if new_level == old_level {
        let mut text = String::from_str("Level remains ");
        append_decimal(&mut text, new_level as u32);
        text.append(".");
        return text;
    }
    let mut text = if new_level > old_level {
        String::from_str("Your level increased from ")
    } else {
        String::from_str("Your level decreased from ")
    };
    append_decimal(&mut text, old_level as u32);
    text.append(" to ");
    append_decimal(&mut text, new_level as u32);
    text.append(".");
    text
}

/// The ASCII letters and digits of `name`, lowered.
pub open spec fn waypoint_key(name: Seq<char>) -> Seq<char>
    decreases name.len(),
{
    if name.len() == 0 {
        Seq::empty()
    } else if is_ascii_alphanumeric_spec(name.last()) {
        waypoint_key(name.drop_last()).push(to_ascii_lowercase_spec(name.last()))
    } else {
        waypoint_key(name.drop_last())
    }
}

fn is_ascii_alphanumeric(c: char) -> (a: bool)
    ensures
        a == is_ascii_alphanumeric_spec(c),
{
    let v = c as u32;
    (48 <= v && v <= 57) || (97 <= v && v <= 122) || (65 <= v && v <= 90)
}

/// The lookup key of a waypoint name: its letters and digits, lowered.
pub fn normalize_gm_waypoint_name(name: &str) -> (key: String)
    ensures
        key@ == waypoint_key(name@),
{
    let chars = chars_of(name);
    let mut key = String::new();
    let mut i: usize = 0;
    while i < chars.len()
        invariant
            i <= chars.len(),
            chars@ == name@,
            key@ == waypoint_key(chars@.take(i as int)),
        decreases chars.len() - i,
    {
        assert(chars@.take(i + 1).drop_last() =~= chars@.take(i as int));
        if is_ascii_alphanumeric(chars[i]) {
            push_char(&mut key, to_ascii_lowercase(chars[i]));
        }
        i += 1;
    }
    assert(chars@.take(chars@.len() as int) =~= chars@);
    key
}

pub const GM_WAYPOINT_COUNT: usize = 7;

/// The waypoint table row whose aliases hold `key`.
pub open spec fn waypoint_index_for_key(key: Seq<char>) -> Option<usize> {
    if key == "northshire"@ || key == "northshireabbey"@ || key == "abbey"@ {
        Some(0)
    } else if key == "goldshire"@ || key == "elwynn"@ || key == "elwynnforest"@ {
        Some(1)
    } else if key == "stormwind"@ || key == "sw"@ {
        Some(2)
    } else if key == "ironforge"@ || key == "if"@ {
        Some(3)
    } else if key == "westfall"@ || key == "sentinelhill"@ {
        Some(4)
    } else if key == "darkshire"@ || key == "duskwood"@ {
        Some(5)
    } else if key == "bootybay"@ || key == "bb"@ || key == "stranglethorn"@ {
        Some(6)
    } else {
        None
    }
}

/// The row of the waypoint table named by `name` (letters and digits
/// compared without case): Northshire, Goldshire, Stormwind, Ironforge,
/// Sentinel Hill, Darkshire, Booty Bay.
pub fn find_gm_waypoint(name: &str) -> (index: Option<usize>)
    ensures
        index == waypoint_index_for_key(waypoint_key(name@)),
{
    let key_text = normalize_gm_waypoint_name(name);
    let key = chars_of(key_text.as_str());
    let k = key.as_slice();
    if equals_str(k, "northshire") || equals_str(k, "northshireabbey") || equals_str(k, "abbey") {
        Some(0)
    } else if equals_str(k, "goldshire") || equals_str(k, "elwynn") || equals_str(k, "elwynnforest") {
        Some(1)
    } else if equals_str(k, "stormwind") || equals_str(k, "sw") {
        Some(2)
    } else if equals_str(k, "ironforge") || equals_str(k, "if") {
        Some(3)
    } else if equals_str(k, "westfall") || equals_str(k, "sentinelhill") {
        Some(4)
    } else if equals_str(k, "darkshire") || equals_str(k, "duskwood") {
        Some(5)
    } else if equals_str(k, "bootybay") || equals_str(k, "bb") || equals_str(k, "stranglethorn") {
        Some(6)
    } else {
        None
    }
}

// ---------------------------------------------------------------------------
// Dot commands

/// A game master command. The arguments of `.go` and `.modify speed` are
/// kept as typed: they hold coordinates and rates, read by the server shell.
#[derive(Clone, Debug, PartialEq, Eq)]
pub enum GmDotCommand {
    Gm(Option<bool>),
    LevelUp(i32),
    LevelSet(u8),
    NpcAdd(u32),
    NpcDelete(Option<u32>),
    Die,
    Go(Vec<char>),
    ModifySpeed(Vec<char>),
}

/// The view of a command, with argument text as character sequences.
pub enum GmDotCommandView {
    Gm(Option<bool>),
    LevelUp(i32),
    LevelSet(u8),
    NpcAdd(u32),
    NpcDelete(Option<u32>),
    Die,
    Go(Seq<char>),
    ModifySpeed(Seq<char>),
}

impl View for GmDotCommand {
    type V = GmDotCommandView;

    open spec fn view(&self) -> GmDotCommandView {
        match self {
            GmDotCommand::Gm(v) => GmDotCommandView::Gm(*v),
            GmDotCommand::LevelUp(d) => GmDotCommandView::LevelUp(*d),
            GmDotCommand::LevelSet(l) => GmDotCommandView::LevelSet(*l),
            GmDotCommand::NpcAdd(e) => GmDotCommandView::NpcAdd(*e),
            GmDotCommand::NpcDelete(e) => GmDotCommandView::NpcDelete(*e),
            GmDotCommand::Die => GmDotCommandView::Die,
            GmDotCommand::Go(args) => GmDotCommandView::Go(args@),
            GmDotCommand::ModifySpeed(args) => GmDotCommandView::ModifySpeed(args@),
        }
    }
}

/// What a chat line means as a dot command: `None` when it is none, else
/// the command or the syntax help for it.
pub open spec fn gm_command_spec(message: Seq<char>) -> Option<Result<GmDotCommandView, Seq<char>>> {
    let trimmed = trim(message);
    if trimmed.len() == 0 || trimmed[0] != '.' {
        None
    } else {
        let without_dot = trim(trimmed.drop_first());
        let n = ascii_lowercase(without_dot);
        if n == "die"@ || starts_with(n, "die "@) {
            Some(Ok(GmDotCommandView::Die))
        } else if starts_with(n, "go "@) {
            Some(Ok(GmDotCommandView::Go(without_dot.subrange(2, without_dot.len() as int))))
        } else if n == "go"@ {
            Some(Err("Syntax: .go #x #y [#z [#mapid]] or .go #waypoint"@))
        } else if starts_with(n, "modify speed "@) {
            Some(Ok(GmDotCommandView::ModifySpeed(n.subrange(13, n.len() as int))))
        } else if n == "gm"@ {
            Some(Ok(GmDotCommandView::Gm(None)))
        } else if starts_with(n, "gm "@) {
            let arg = trim(n.subrange(3, n.len() as int));
            if arg == "on"@ || arg == "1"@ {
                Some(Ok(GmDotCommandView::Gm(Some(true))))
            } else if arg == "off"@ || arg == "0"@ {
                Some(Ok(GmDotCommandView::Gm(Some(false))))
            } else {
                Some(Err("Syntax: .gm on/off"@))
            }
        } else if n == "levelup"@ || n == "level"@ {
            Some(Ok(GmDotCommandView::LevelUp(1)))
        } else if starts_with(n, "levelup "@) {
            match first_i32_spec(n.subrange(8, n.len() as int)) {
                Some(d) => Some(Ok(GmDotCommandView::LevelUp(d))),
                None => Some(Err("Syntax: .levelup [#levels]"@)),
            }
        } else if starts_with(n, "level "@) {
            match first_i32_spec(n.subrange(6, n.len() as int)) {
                Some(d) => Some(Ok(GmDotCommandView::LevelUp(d))),
                None => Some(Err("Syntax: .level [#levels]"@)),
            }
        } else if starts_with(n, "character level "@) {
            match first_u32_spec(n.subrange(16, n.len() as int)) {
                Some(l) => if l > 0 {
                    Some(Ok(GmDotCommandView::LevelSet(
                        if l > DEFAULT_MAX_PLAYER_LEVEL { DEFAULT_MAX_PLAYER_LEVEL } else { l as u8 },
                    )))
                } else {
                    Some(Err("Syntax: .character level #level"@))
                },
                None => Some(Err("Syntax: .character level #level"@)),
            }
        } else if starts_with(n, "npc add"@) {
            match first_u32_spec(n.subrange(7, n.len() as int)) {
                Some(e) => Some(Ok(GmDotCommandView::NpcAdd(e))),
                None => Some(Err("Syntax: .npc add #creatureid"@)),
            }
        } else if starts_with(n, "npc delete"@) {
            Some(Ok(GmDotCommandView::NpcDelete(first_u32_spec(n.subrange(10, n.len() as int)))))
        } else {
            None
        }
    }
}

/// The view of a parse result.
pub open spec fn gm_parse_view(parsed: Option<Result<GmDotCommand, String>>) -> Option<Result<GmDotCommandView, Seq<char>>> {
    match parsed {
        None => None,
        Some(Ok(c)) => Some(Ok(c@)),
        Some(Err(e)) => Some(Err(e@)),
    }
}

fn syntax_error(text: &str) -> (parsed: Option<Result<GmDotCommand, String>>)
    ensures
        gm_parse_view(parsed) == Some(Err::<GmDotCommandView, Seq<char>>(text@)),
{
    Some(Err(String::from_str(text)))
}

/// Reads a chat line as a dot command.
pub fn parse_gm_dot_command(message: &str) -> (parsed: Option<Result<GmDotCommand, String>>)
    ensures
        gm_parse_view(parsed) == gm_command_spec(message@),
{
    let chars = chars_of(message);
    let trimmed = trim_chars(chars.as_slice());
    if trimmed.len() == 0 || trimmed[0] != '.' {
        return None;
    }
    let after_dot = copy_range(trimmed.as_slice(), 1, trimmed.len());
    assert(after_dot@ =~= trimmed@.drop_first());
    let without_dot = trim_chars(after_dot.as_slice());
    let n = ascii_lowercase_chars(without_dot.as_slice());
    let ns = n.as_slice();
    proof {
        reveal_strlit("die");
        reveal_strlit("die ");
        reveal_strlit("go ");
        reveal_strlit("go");
        reveal_strlit("modify speed ");
        reveal_strlit("gm");
        reveal_strlit("gm ");
        reveal_strlit("levelup");
        reveal_strlit("level");
        reveal_strlit("levelup ");
        reveal_strlit("level ");
        reveal_strlit("character level ");
        reveal_strlit("npc add");
        reveal_strlit("npc delete");
    }
    if equals_str(ns, "die") || starts_with_str(ns, "die ") {
        return Some(Ok(GmDotCommand::Die));
    }
    if starts_with_str(ns, "go ") {
        assert(n@.len() == without_dot@.len());
        return Some(Ok(GmDotCommand::Go(copy_range(without_dot.as_slice(), 2, without_dot.len()))));
    }
    if equals_str(ns, "go") {
        return syntax_error("Syntax: .go #x #y [#z [#mapid]] or .go #waypoint");
    }
    if starts_with_str(ns, "modify speed ") {
        return Some(Ok(GmDotCommand::ModifySpeed(copy_range(ns, 13, n.len()))));
    }
    if equals_str(ns, "gm") {
        return Some(Ok(GmDotCommand::Gm(None)));
    }
    if starts_with_str(ns, "gm ") {
        let rest = copy_range(ns, 3, n.len());
        let arg = trim_chars(rest.as_slice());
        let a = arg.as_slice();
        if equals_str(a, "on") || equals_str(a, "1") {
            return Some(Ok(GmDotCommand::Gm(Some(true))));
        } else if equals_str(a, "off") || equals_str(a, "0") {
            return Some(Ok(GmDotCommand::Gm(Some(false))));
        } else {
            return syntax_error("Syntax: .gm on/off");
        }
    }
    if equals_str(ns, "levelup") || equals_str(ns, "level") {
        return Some(Ok(GmDotCommand::LevelUp(1)));
    }
    if starts_with_str(ns, "levelup ") {
        let rest = copy_range(ns, 8, n.len());
        return match first_i32_chars(rest.as_slice()) {
            Some(d) => Some(Ok(GmDotCommand::LevelUp(d))),
            None => syntax_error("Syntax: .levelup [#levels]"),
        };
    }
    if starts_with_str(ns, "level ") {
        let rest = copy_range(ns, 6, n.len());
        return match first_i32_chars(rest.as_slice()) {
            Some(d) => Some(Ok(GmDotCommand::LevelUp(d))),
            None => syntax_error("Syntax: .level [#levels]"),
        };
    }
    if starts_with_str(ns, "character level ") {
        let rest = copy_range(ns, 16, n.len());
        return match first_u32_chars(rest.as_slice()) {
            Some(l) => {
                if l > 0 {
                    let level: u8 = if l > DEFAULT_MAX_PLAYER_LEVEL as u32 { DEFAULT_MAX_PLAYER_LEVEL } else { l as u8 };
                    Some(Ok(GmDotCommand::LevelSet(level)))
                } else {
                    syntax_error("Syntax: .character level #level")
                }
            },
            None => syntax_error("Syntax: .character level #level"),
        };
    }
    if starts_with_str(ns, "npc add") {
        let rest = copy_range(ns, 7, n.len());
        return match first_u32_chars(rest.as_slice()) {
            Some(e) => Some(Ok(GmDotCommand::NpcAdd(e))),
            None => syntax_error("Syntax: .npc add #creatureid"),
        };
    }
    if starts_with_str(ns, "npc delete") {
        let rest = copy_range(ns, 10, n.len());
        return Some(Ok(GmDotCommand::NpcDelete(first_u32_chars(rest.as_slice()))));
    }
    None
}

// ---------------------------------------------------------------------------
// Who may run a command

pub const PLAYER_FLAGS_GM: u32 = 0x0000_0008;

/// Whether a game master may run a command now.
#[derive(Clone, Copy, Debug, PartialEq, Eq, Structural)]
pub enum GmCommandGate {
    Allowed,
    /// The account's security level is too low.
    NoPermission,
    /// The command needs GM mode, which is off.
    GmModeOff,
}

/// The security level a command needs: 1 for `.gm`, `.go` and speed, 2
/// for adding and deleting creatures, 3 for levels and `.die`.
pub open spec fn required_security_spec(command: GmDotCommandView) -> u8 {
    match command {
        GmDotCommandView::Gm(_) => 1,
        GmDotCommandView::Go(_) => 1,
        GmDotCommandView::ModifySpeed(_) => 1,
        GmDotCommandView::NpcAdd(_) => 2,
        GmDotCommandView::NpcDelete(_) => 2,
        GmDotCommandView::LevelUp(_) => 3,
        GmDotCommandView::LevelSet(_) => 3,
        GmDotCommandView::Die => 3,
    }
}

/// Every command but `.gm` itself needs GM mode on.
pub open spec fn gate_spec(command: GmDotCommandView, account_security: u8, gm_mode: bool) -> GmCommandGate {
    if account_security < required_security_spec(command) {
        GmCommandGate::NoPermission
    } else if !(command is Gm) && !gm_mode {
        GmCommandGate::GmModeOff
    } else {
        GmCommandGate::Allowed
    }
}

/// Whether an account of `account_security` may run `command` with GM
/// mode `gm_mode`.
pub fn gm_command_gate(command: &GmDotCommand, account_security: u8, gm_mode: bool) -> (gate: GmCommandGate)
    ensures
        gate == gate_spec(command@, account_security, gm_mode),
{
    let (required, needs_gm_mode): (u8, bool) = match command {
        GmDotCommand::Gm(_) => (1, false),
        GmDotCommand::Go(_) => (1, true),
        GmDotCommand::ModifySpeed(_) => (1, true),
        GmDotCommand::NpcAdd(_) => (2, true),
        GmDotCommand::NpcDelete(_) => (2, true),
        GmDotCommand::LevelUp(_) => (3, true),
        GmDotCommand::LevelSet(_) => (3, true),
        GmDotCommand::Die => (3, true),
    };
    if account_security < required {
        GmCommandGate::NoPermission
    } else if needs_gm_mode && !gm_mode {
        GmCommandGate::GmModeOff
    } else {
        GmCommandGate::Allowed
    }
}

/// What a refused command tells the game master.
pub fn gm_gate_message(gate: GmCommandGate) -> (message: Option<&'static str>)
    ensures
        match gate {
            GmCommandGate::Allowed => message is None,
            GmCommandGate::NoPermission => message matches Some(m) && m@ == "You do not have permission to use that command."@,
            GmCommandGate::GmModeOff => message matches Some(m) && m@ == "You must turn GM mode on first with .gm on."@,
        },
{
    match gate {
        GmCommandGate::Allowed => None,
        GmCommandGate::NoPermission => Some("You do not have permission to use that command."),
        GmCommandGate::GmModeOff => Some("You must turn GM mode on first with .gm on."),
    }
}

/// What a chat line starting with a dot that names no command tells the
/// player: unknown to a game master in GM mode, else how to turn it on.
pub fn gm_unknown_command_message(gm_mode: bool) -> (message: &'static str)
    ensures
        message@ == if gm_mode { "Unknown command."@ } else { "You must turn GM mode on first with .gm on."@ },
{
    if gm_mode {
        "Unknown command."
    } else {
        "You must turn GM mode on first with .gm on."
    }
}

/// The player flags with GM mode switched on or off.
pub fn gm_mode_player_flags(flags: u32, enabled: bool) -> (updated: u32)
    ensures
        updated == if enabled { flags | PLAYER_FLAGS_GM } else { flags & !PLAYER_FLAGS_GM },
{
    if enabled {
        flags | PLAYER_FLAGS_GM
    } else {
        flags & !PLAYER_FLAGS_GM
    }
}

/// What `.gm` answers: the mode after the command.
pub fn gm_mode_status_message(gm_mode: bool) -> (message: &'static str)
    ensures
        message@ == if gm_mode { "GM mode is ON."@ } else { "GM mode is OFF."@ },
{
    if gm_mode {
        "GM mode is ON."
    } else {
        "GM mode is OFF."
    }
}

// ---------------------------------------------------------------------------
// Creatures a game master acts on

pub open spec fn selected_creature_spec(selected: Option<ObjectGuid>) -> Result<ObjectGuid, Seq<char>> {
    match selected {
        None => Err("Select a creature first."@),
        Some(target) => if target.is_creature() {
            Ok(target)
        } else {
            Err("Selected target is not a creature."@)
        },
    }
}

/// The creature a command acts on: the selected target, which must be a
/// creature; else the message that says what is wrong.
pub fn gm_selected_creature(selected: Option<ObjectGuid>) -> (target: Result<ObjectGuid, &'static str>)
    ensures
        match target {
            Ok(t) => selected_creature_spec(selected) == Ok::<ObjectGuid, Seq<char>>(t),
            Err(m) => selected_creature_spec(selected) == Err::<ObjectGuid, Seq<char>>(m@),
        },
{
    match selected {
        None => Err("Select a creature first."),
        Some(target) => if target.is_creature() {
            Ok(target)
        } else {
            Err("Selected target is not a creature.")
        },
    }
}

/// The creature `.npc delete` removes: the stored spawn `db_guid` when
/// given (no target needed), else the selected creature.
pub fn gm_delete_target(db_guid: Option<u32>, selected: Option<ObjectGuid>) -> (target: Result<Option<ObjectGuid>, &'static str>)
    ensures
        match target {
            Ok(None) => db_guid is Some,
            Ok(Some(t)) => db_guid is None && selected_creature_spec(selected) == Ok::<ObjectGuid, Seq<char>>(t),
            Err(m) => db_guid is None && selected_creature_spec(selected) == Err::<ObjectGuid, Seq<char>>(m@),
        },
{
    if db_guid.is_some() {
        return Ok(None);
    }
    match gm_selected_creature(selected) {
        Ok(t) => Ok(Some(t)),
        Err(m) => Err(m),
    }
}

/// Why `.die` cannot kill the selected creature: it is not spawned on the
/// map (`alive` is `None`) or is dead already.
pub fn gm_kill_refusal(alive: Option<bool>) -> (message: Option<&'static str>)
    ensures
        match alive {
            None => message matches Some(m) && m@ == "Selected creature is not spawned on this map."@,
            Some(true) => message is None,
            Some(false) => message matches Some(m) && m@ == "Selected creature is already dead."@,
        },
{
    match alive {
        None => Some("Selected creature is not spawned on this map."),
        Some(true) => None,
        Some(false) => Some("Selected creature is already dead."),
    }
}

/// "Spawned NAME (ENTRY) with guid COUNTER."
pub fn gm_spawned_message(name: &str, entry: u32, counter: u32) -> (message: String)
    ensures
        message@ == "Spawned "@ + name@ + " ("@ + decimal(entry as nat) + ") with guid "@ + decimal(counter as nat) + "."@,
{
    let mut text = String::from_str("Spawned ");
    text.append(name);
    text.append(" (");
    append_decimal(&mut text, entry);
    text.append(") with guid ");
    append_decimal(&mut text, counter);
    text.append(".");
    text
}

/// "Creature template ENTRY was not found."
pub fn gm_missing_template_message(entry: u32) -> (message: String)
    ensures
        message@ == "Creature template "@ + decimal(entry as nat) + " was not found."@,
{
    let mut text = String::from_str("Creature template ");
    append_decimal(&mut text, entry);
    text.append(" was not found.");
    text
}

/// "Deleted NAME (DB_GUID) from the live map runtime."
pub fn gm_deleted_message(name: &str, db_guid: u32) -> (message: String)
    ensures
        message@ == "Deleted "@ + name@ + " ("@ + decimal(db_guid as nat) + ") from the live map runtime."@,
{
    let mut text = String::from_str("Deleted ");
    text.append(name);
    text.append(" (");
    append_decimal(&mut text, db_guid);
    text.append(") from the live map runtime.");
    text
}

} // verus!
