//! Rewriting `server.properties` on a server's first start, and marking a
//! server's description as started.

use vstd::prelude::*;
use vstd::string::*;
use crate::config::{Config, ServerInfo, DEFAULT_GAME_PORT};
use crate::text::{
    chars_of, decimal, has_prefix, join_lines, lemma_join_push, lemma_lines_of_join, lemma_prefix_char,
    lemma_prefix_of_concat, line_spans, lines_of, push_decimal, rejoinable, span_has_prefix, span_text,
};

verus! {

/// What a first-start rewrite of `server.properties` produced: the new
/// contents, and which of the settings were found (and so replaced).
pub struct PropertiesUpdate {
    pub contents: String,
    pub port_updated: bool,
    pub rcon_port_updated: bool,
    pub rcon_enabled: bool,
    pub level_name_updated: bool,
}

/// A line of `server.properties` after the rewrite: the game port and the
/// level name are set, and, where RCON settings are given (port, password),
/// RCON is enabled with that port and password. Other lines stay as they are.
pub open spec fn property_line(
    line: Seq<char>,
    port: u16,
    level_name: Seq<char>,
    rcon: Option<(u16, Seq<char>)>,
) -> Seq<char> {
    if has_prefix(line, "server-port="@) {
        "server-port="@ + decimal(port as nat)
    } else if rcon is Some && has_prefix(line, "rcon.port="@) {
        "rcon.port="@ + decimal(rcon.unwrap().0 as nat)
    } else if rcon is Some && has_prefix(line, "enable-rcon="@) {
        "enable-rcon=true"@
    } else if rcon is Some && has_prefix(line, "rcon.password="@) {
        "rcon.password="@ + rcon.unwrap().1
    } else if has_prefix(line, "level-name="@) {
        "level-name="@ + level_name
    } else {
        line
    }
}

/// The RCON lines added at the end of `server.properties` when RCON settings
/// are given and the file lacks them: `enable-rcon=true`, then the RCON port,
/// then the password, each only when no line sets it yet.
pub open spec fn appended_rcon_lines(text: Seq<char>, rcon: Option<(u16, Seq<char>)>) -> Seq<
    Seq<char>,
> {
    match rcon {
        None => Seq::empty(),
        Some(r) => missing_rcon_lines(
            !some_line_has_prefix(text, "enable-rcon="@),
            !some_line_has_prefix(text, "rcon.port="@),
            !some_line_has_prefix(text, "rcon.password="@),
            r.0,
            r.1,
        ),
    }
}

/// The RCON lines that are missing, in order: `enable-rcon=true`, the RCON
/// port, the password.
pub open spec fn missing_rcon_lines(
    enable_missing: bool,
    port_missing: bool,
    password_missing: bool,
    rcon_port: u16,
    password: Seq<char>,
) -> Seq<Seq<char>> {
    (if enable_missing {
        seq!["enable-rcon=true"@]
    } else {
        Seq::empty()
    }) + (if port_missing {
        seq!["rcon.port="@ + decimal(rcon_port as nat)]
    } else {
        Seq::empty()
    }) + (if password_missing {
        seq!["rcon.password="@ + password]
    } else {
        Seq::empty()
    })
}

/// Appends the missing RCON lines to joined lines.
fn append_missing_rcon(
    out: &mut String,
    written: Ghost<Seq<Seq<char>>>,
    nonempty: bool,
    enable_missing: bool,
    port_missing: bool,
    password_missing: bool,
    rcon_port: u16,
    password: &str,
)
    requires
        old(out)@ == join_lines(written@),
        nonempty == (written@.len() > 0),
    ensures
        final(out)@ == join_lines(
            written@ + missing_rcon_lines(
                enable_missing,
                port_missing,
                password_missing,
                rcon_port,
                password@,
            ),
        ),
{
    proof {
        reveal_strlit("\n");
    }
    let ghost mut w = written@;
    let mut any = nonempty;
    if enable_missing {
        let ghost line = "enable-rcon=true"@;
        if any {
            out.append("\n");
        }
        out.append("enable-rcon=true");
        proof {
            lemma_join_push(w, line);
            w = w.push(line);
        }
        any = true;
    }
    if port_missing {
        let ghost line = "rcon.port="@ + decimal(rcon_port as nat);
        if any {
            out.append("\n");
        }
        out.append("rcon.port=");
        push_decimal(out, rcon_port as u32);
        proof {
            lemma_join_push(w, line);
            w = w.push(line);
        }
        any = true;
    }
    if password_missing {
        let ghost line = "rcon.password="@ + password@;
        if any {
            out.append("\n");
        }
        out.append("rcon.password=");
        out.append(password);
        proof {
            lemma_join_push(w, line);
            w = w.push(line);
        }
    }
    assert(w =~= written@ + missing_rcon_lines(
        enable_missing,
        port_missing,
        password_missing,
        rcon_port,
        password@,
    ));
}

/// The lines of `server.properties` after the rewrite, before they are
/// joined: each line rewritten, then the missing RCON lines.
pub open spec fn rewritten_lines(
    text: Seq<char>,
    port: u16,
    level_name: Seq<char>,
    rcon: Option<(u16, Seq<char>)>,
) -> Seq<Seq<char>> {
    lines_of(text).map_values(|l: Seq<char>| property_line(l, port, level_name, rcon))
        + appended_rcon_lines(text, rcon)
}

/// The whole file after the rewrite: the rewritten lines joined by newlines.
pub open spec fn rewritten_properties(
    text: Seq<char>,
    port: u16,
    level_name: Seq<char>,
    rcon: Option<(u16, Seq<char>)>,
) -> Seq<char> {
    join_lines(rewritten_lines(text, port, level_name, rcon))
}

/// Whether some line of the text begins with `prefix`.
pub open spec fn some_line_has_prefix(text: Seq<char>, prefix: Seq<char>) -> bool {
    exists|j: int| 0 <= j < lines_of(text).len() && has_prefix(#[trigger] lines_of(text)[j], prefix)
}

/// The RCON settings as plain values.
pub open spec fn rcon_view(rcon: Option<(u16, &str)>) -> Option<(u16, Seq<char>)> {
    match rcon {
        Some(r) => Some((r.0, r.1@)),
        None => None,
    }
}

/// Rewrites every line of `text` by `property_line`, then adds the missing
/// RCON lines.
fn edit_properties(text: &str, port: u16, level_name: &str, rcon: Option<(u16, &str)>) -> (u:
    PropertiesUpdate)
    ensures
        u.contents@ == rewritten_properties(text@, port, level_name@, rcon_view(rcon)),
        u.port_updated == some_line_has_prefix(text@, "server-port="@),
        u.rcon_port_updated == (rcon is Some && some_line_has_prefix(text@, "rcon.port="@)),
        u.rcon_enabled == (rcon is Some && some_line_has_prefix(text@, "enable-rcon="@)),
        u.level_name_updated == some_line_has_prefix(text@, "level-name="@),
{
    let chars = chars_of(text);
    let spans = line_spans(&chars);
    let p_port = chars_of("server-port=");
    let p_rcon_port = chars_of("rcon.port=");
    let p_enable = chars_of("enable-rcon=");
    let p_password = chars_of("rcon.password=");
    let p_level = chars_of("level-name=");
    let ghost lines = lines_of(text@);
    let ghost rv = rcon_view(rcon);
    let ghost f = |l: Seq<char>| property_line(l, port, level_name@, rv);
    let mut out = String::new();
    let mut port_updated = false;
    let mut rcon_port_updated = false;
    let mut rcon_enabled = false;
    let mut rcon_password_found = false;
    let mut level_name_updated = false;
    let mut j: usize = 0;
    while j < spans.len()
        invariant
            chars@ == text@,
            lines == lines_of(text@),
            spans@.len() == lines.len(),
            forall|m: int|
                0 <= m < spans@.len() ==> {
                    &&& (#[trigger] spans@[m]).0 <= spans@[m].1 <= chars@.len()
                    &&& span_text(chars@, spans@[m]) == lines[m]
                },
            p_port@ == "server-port="@,
            p_rcon_port@ == "rcon.port="@,
            p_enable@ == "enable-rcon="@,
            p_password@ == "rcon.password="@,
            p_level@ == "level-name="@,
            rv == rcon_view(rcon),
            f == (|l: Seq<char>| property_line(l, port, level_name@, rv)),
            j <= spans@.len(),
            j == lines.take(j as int).map_values(f).len(),
            out@ == join_lines(lines.take(j as int).map_values(f)),
            port_updated == exists|m: int| 0 <= m < j && has_prefix(#[trigger] lines[m], "server-port="@),
            rcon_port_updated == (rcon is Some && exists|m: int|
                0 <= m < j && has_prefix(#[trigger] lines[m], "rcon.port="@)),
            rcon_enabled == (rcon is Some && exists|m: int|
                0 <= m < j && has_prefix(#[trigger] lines[m], "enable-rcon="@)),
            rcon_password_found == (rcon is Some && exists|m: int|
                0 <= m < j && has_prefix(#[trigger] lines[m], "rcon.password="@)),
            level_name_updated == exists|m: int|
                0 <= m < j && has_prefix(#[trigger] lines[m], "level-name="@),
        decreases spans.len() - j,
    {
        let span = spans[j];
        let ghost line = lines[j as int];
        assert(span_text(chars@, spans@[j as int]) == line);
        let ghost before = out@;
        if j > 0 {
            out.append("\n");
        }
        proof {
            reveal_strlit("\n");
        }
        let is_port = span_has_prefix(&chars, span, &p_port);
        let is_rcon_port = span_has_prefix(&chars, span, &p_rcon_port);
        let is_enable = span_has_prefix(&chars, span, &p_enable);
        let is_password = span_has_prefix(&chars, span, &p_password);
        let is_level = span_has_prefix(&chars, span, &p_level);
        let ghost sep = out@;
        if is_port {
            out.append("server-port=");
            push_decimal(&mut out, port as u32);
        } else if rcon.is_some() && is_rcon_port {
            out.append("rcon.port=");
            push_decimal(&mut out, rcon.unwrap().0 as u32);
        } else if rcon.is_some() && is_enable {
            out.append("enable-rcon=true");
        } else if rcon.is_some() && is_password {
            out.append("rcon.password=");
            out.append(rcon.unwrap().1);
        } else if is_level {
            out.append("level-name=");
            out.append(level_name);
        } else {
            out.append(text.substring_char(span.0, span.1));
        }
        assert(out@ == sep + f(line));
        proof {
            lemma_join_push(lines.take(j as int).map_values(f), f(line));
            assert(lines.take(j + 1).map_values(f) =~= lines.take(j as int).map_values(f).push(
                f(line),
            ));
        }
        port_updated = port_updated || is_port;
        rcon_port_updated = rcon_port_updated || (rcon.is_some() && is_rcon_port);
        rcon_enabled = rcon_enabled || (rcon.is_some() && is_enable);
        rcon_password_found = rcon_password_found || (rcon.is_some() && is_password);
        level_name_updated = level_name_updated || is_level;
        j = j + 1;
    }
    assert(lines.take(j as int) =~= lines);
    let ghost written = lines.map_values(f);
    let ghost before = out@;
    if let Some((rcon_port, password)) = rcon {
        append_missing_rcon(
            &mut out,
            Ghost(written),
            j > 0,
            !rcon_enabled,
            !rcon_port_updated,
            !rcon_password_found,
            rcon_port,
            password,
        );
    }
    assert(out@ == join_lines(rewritten_lines(text@, port, level_name@, rv))) by {
        if rcon is None {
            assert(rewritten_lines(text@, port, level_name@, rv) =~= written);
        } else {
            assert(rewritten_lines(text@, port, level_name@, rv) =~= written + appended_rcon_lines(text@, rv));
        }
    }
    PropertiesUpdate {
        contents: out,
        port_updated,
        rcon_port_updated,
        rcon_enabled,
        level_name_updated,
    }
}

/// Rewrites `server.properties` for a server's first start: the game port,
/// RCON port and password are those of the server's description, RCON is
/// enabled, and the level is named after the server. RCON lines the file
/// lacks are added at its end, so RCON is on whatever the file held. The
/// flags tell which settings the file already had.
pub fn first_time_server_properties(properties: &str, name: &str, info: &ServerInfo) -> (u:
    PropertiesUpdate)
    ensures
        u.contents@ == rewritten_properties(
            properties@,
            info.port,
            name@,
            Some((info.rcon_port, info.rcon_password@)),
        ),
        u.port_updated == some_line_has_prefix(properties@, "server-port="@),
        u.rcon_port_updated == some_line_has_prefix(properties@, "rcon.port="@),
        u.rcon_enabled == some_line_has_prefix(properties@, "enable-rcon="@),
        u.level_name_updated == some_line_has_prefix(properties@, "level-name="@),
{
    edit_properties(properties, info.port, name, Some((info.rcon_port, info.rcon_password.as_str())))
}

/// The game port of the settings, or the default one.
pub open spec fn configured_port(config: &Config) -> u16 {
    match config.port {
        Some(p) => p,
        None => DEFAULT_GAME_PORT,
    }
}

/// How each line of `server.properties` is rewritten on a server's first
/// start: a line that set `enable-rcon`, `rcon.port` or `rcon.password` now
/// enables RCON, names the server's RCON port, or holds its RCON password; a
/// line that set `server-port` or `level-name` names the server's game port
/// or its name; every other line is kept.
pub proof fn law_first_start_line_by_line(text: Seq<char>, name: Seq<char>, info: ServerInfo, j: int)
    requires
        0 <= j < lines_of(text).len(),
    ensures
        ({
            let line = lines_of(text)[j];
            let out = property_line(line, info.port, name, Some((info.rcon_port, info.rcon_password@)));
            &&& has_prefix(line, "server-port="@) ==> out == "server-port="@ + decimal(info.port as nat)
            &&& has_prefix(line, "enable-rcon="@) ==> out == "enable-rcon=true"@
            &&& has_prefix(line, "rcon.port="@) ==> out == "rcon.port="@ + decimal(info.rcon_port as nat)
            &&& has_prefix(line, "rcon.password="@) ==> out == "rcon.password="@ + info.rcon_password@
            &&& has_prefix(line, "level-name="@) ==> out == "level-name="@ + name
            &&& !has_prefix(line, "server-port="@) && !has_prefix(line, "enable-rcon="@) && !has_prefix(
                line,
                "rcon.port="@,
            ) && !has_prefix(line, "rcon.password="@) && !has_prefix(line, "level-name="@) ==> out
                == line
        }),
{
    reveal_strlit("server-port=");
    reveal_strlit("enable-rcon=");
    reveal_strlit("rcon.port=");
    reveal_strlit("rcon.password=");
    reveal_strlit("level-name=");
    let line = lines_of(text)[j];
    let sp = "server-port="@;
    let er = "enable-rcon="@;
    let rp = "rcon.port="@;
    let pw = "rcon.password="@;
    let ln = "level-name="@;
    assert(sp[0] == 's' && er[0] == 'e' && rp[0] == 'r' && pw[0] == 'r' && ln[0] == 'l');
    assert(rp[5] == 'p' && rp[6] == 'o' && pw[5] == 'p' && pw[6] == 'a');
    if has_prefix(line, sp) {
        assert(line[0] == line.subrange(0, sp.len() as int)[0]);
    }
    if has_prefix(line, er) {
        assert(line[0] == line.subrange(0, er.len() as int)[0]);
    }
    if has_prefix(line, rp) {
        assert(line[0] == line.subrange(0, rp.len() as int)[0]);
        assert(line[6] == line.subrange(0, rp.len() as int)[6]);
    }
    if has_prefix(line, pw) {
        assert(line[0] == line.subrange(0, pw.len() as int)[0]);
        assert(line[6] == line.subrange(0, pw.len() as int)[6]);
    }
    if has_prefix(line, ln) {
        assert(line[0] == line.subrange(0, ln.len() as int)[0]);
    }
}

/// Rewrites `server.properties` with the game port of the settings (or the
/// default one) and the level named after the server; RCON lines stay as
/// they are.
pub fn firsttime_server_properties(properties: &str, name: &str, config: &Config) -> (u:
    PropertiesUpdate)
    ensures
        u.contents@ == rewritten_properties(properties@, configured_port(config), name@, None),
        u.port_updated == some_line_has_prefix(properties@, "server-port="@),
        !u.rcon_port_updated,
        !u.rcon_enabled,
        u.level_name_updated == some_line_has_prefix(properties@, "level-name="@),
{
    let port = match config.port {
        Some(p) => p,
        None => DEFAULT_GAME_PORT,
    };
    edit_properties(properties, port, name, None)
}

/// A line of a server description after it is marked as started.
pub open spec fn started_line(line: Seq<char>) -> Seq<char> {
    if has_prefix(line, "has_been_started ="@) {
        "has_been_started = true"@
    } else {
        line
    }
}

/// A server description (its TOML text) with the started flag set: every line
/// that assigns `has_been_started` now sets it to true; the lines are joined
/// by newlines.
pub open spec fn marked_started(text: Seq<char>) -> Seq<char> {
    join_lines(lines_of(text).map_values(|l: Seq<char>| started_line(l)))
}

/// Marks a server description (its TOML text) as started.
pub fn mark_started(info_text: &str) -> (out: String)
    ensures
        out@ == marked_started(info_text@),
{
    let chars = chars_of(info_text);
    let spans = line_spans(&chars);
    let p_started = chars_of("has_been_started =");
    let ghost lines = lines_of(info_text@);
    let ghost f = |l: Seq<char>| started_line(l);
    let mut out = String::new();
    let mut j: usize = 0;
    while j < spans.len()
        invariant
            chars@ == info_text@,
            lines == lines_of(info_text@),
            spans@.len() == lines.len(),
            forall|m: int|
                0 <= m < spans@.len() ==> {
                    &&& (#[trigger] spans@[m]).0 <= spans@[m].1 <= chars@.len()
                    &&& span_text(chars@, spans@[m]) == lines[m]
                },
            p_started@ == "has_been_started ="@,
            f == (|l: Seq<char>| started_line(l)),
            j <= spans@.len(),
            j == lines.take(j as int).map_values(f).len(),
            out@ == join_lines(lines.take(j as int).map_values(f)),
        decreases spans.len() - j,
    {
        let span = spans[j];
        let ghost line = lines[j as int];
        assert(span_text(chars@, spans@[j as int]) == line);
        if j > 0 {
            out.append("\n");
        }
        proof {
            reveal_strlit("\n");
        }
        let ghost sep = out@;
        if span_has_prefix(&chars, span, &p_started) {
            out.append("has_been_started = true");
        } else {
            out.append(info_text.substring_char(span.0, span.1));
        }
        assert(out@ == sep + f(line));
        proof {
            lemma_join_push(lines.take(j as int).map_values(f), f(line));
            assert(lines.take(j + 1).map_values(f) =~= lines.take(j as int).map_values(f).push(
                f(line),
            ));
        }
        j = j + 1;
    }
    assert(lines.take(j as int) =~= lines);
    out
}

/// Rewriting a line that was already rewritten changes nothing.
proof fn lemma_property_line_stable(
    line: Seq<char>,
    port: u16,
    level_name: Seq<char>,
    rcon: Option<(u16, Seq<char>)>,
)
    ensures
        property_line(property_line(line, port, level_name, rcon), port, level_name, rcon)
            == property_line(line, port, level_name, rcon),
{
    reveal_strlit("server-port=");
    reveal_strlit("enable-rcon=");
    reveal_strlit("enable-rcon=true");
    reveal_strlit("rcon.port=");
    reveal_strlit("rcon.password=");
    reveal_strlit("level-name=");
    let sp = "server-port="@;
    let er = "enable-rcon="@;
    let et = "enable-rcon=true"@;
    let rp = "rcon.port="@;
    let pw = "rcon.password="@;
    let ln = "level-name="@;
    let r = property_line(line, port, level_name, rcon);
    if has_prefix(line, sp) {
        lemma_prefix_of_concat(sp, decimal(port as nat));
    } else if rcon is Some && has_prefix(line, rp) {
        lemma_prefix_of_concat(rp, decimal(rcon.unwrap().0 as nat));
        if has_prefix(r, sp) {
            lemma_prefix_char(r, sp, 0);
            lemma_prefix_char(r, rp, 0);
        }
    } else if rcon is Some && has_prefix(line, er) {
        assert(et =~= er + "true"@) by {
            reveal_strlit("true");
        }
        lemma_prefix_of_concat(er, "true"@);
        if has_prefix(r, sp) {
            lemma_prefix_char(r, sp, 0);
        }
        if has_prefix(r, rp) {
            lemma_prefix_char(r, rp, 0);
        }
    } else if rcon is Some && has_prefix(line, pw) {
        lemma_prefix_of_concat(pw, rcon.unwrap().1);
        lemma_prefix_char(r, pw, 0);
        lemma_prefix_char(r, pw, 6);
        if has_prefix(r, sp) {
            lemma_prefix_char(r, sp, 0);
        }
        if has_prefix(r, rp) {
            lemma_prefix_char(r, rp, 6);
        }
        if has_prefix(r, er) {
            lemma_prefix_char(r, er, 0);
        }
    } else if has_prefix(line, ln) {
        lemma_prefix_of_concat(ln, level_name);
        lemma_prefix_char(r, ln, 0);
        if has_prefix(r, sp) {
            lemma_prefix_char(r, sp, 0);
        }
        if has_prefix(r, rp) {
            lemma_prefix_char(r, rp, 0);
        }
        if has_prefix(r, er) {
            lemma_prefix_char(r, er, 0);
        }
        if has_prefix(r, pw) {
            lemma_prefix_char(r, pw, 0);
        }
    }
}

/// A rewritten line begins with an RCON key only when the line it came from
/// began with that key.
proof fn lemma_rcon_key_kept(
    line: Seq<char>,
    port: u16,
    level_name: Seq<char>,
    rcon: Option<(u16, Seq<char>)>,
    key: Seq<char>,
)
    requires
        rcon is Some,
        key == "enable-rcon="@ || key == "rcon.port="@ || key == "rcon.password="@,
        has_prefix(property_line(line, port, level_name, rcon), key),
    ensures
        has_prefix(line, key),
{
    reveal_strlit("server-port=");
    reveal_strlit("enable-rcon=");
    reveal_strlit("enable-rcon=true");
    reveal_strlit("rcon.port=");
    reveal_strlit("rcon.password=");
    reveal_strlit("level-name=");
    let sp = "server-port="@;
    let er = "enable-rcon="@;
    let rp = "rcon.port="@;
    let pw = "rcon.password="@;
    let ln = "level-name="@;
    let r = property_line(line, port, level_name, rcon);
    lemma_prefix_char(r, key, 0);
    if has_prefix(line, sp) {
        lemma_prefix_of_concat(sp, decimal(port as nat));
        lemma_prefix_char(r, sp, 0);
    } else if has_prefix(line, rp) {
        lemma_prefix_of_concat(rp, decimal(rcon.unwrap().0 as nat));
        lemma_prefix_char(r, rp, 6);
        if key == pw {
            lemma_prefix_char(r, key, 6);
        }
    } else if has_prefix(line, er) {
        lemma_prefix_char(r, key, 0);
    } else if has_prefix(line, pw) {
        lemma_prefix_of_concat(pw, rcon.unwrap().1);
        lemma_prefix_char(r, pw, 6);
        if key == rp {
            lemma_prefix_char(r, key, 6);
        }
    } else if has_prefix(line, ln) {
        lemma_prefix_of_concat(ln, level_name);
        lemma_prefix_char(r, ln, 0);
    }
}

/// The RCON lines the rewrite adds are left as they are by another rewrite.
proof fn lemma_rcon_lines_kept(port: u16, level_name: Seq<char>, rcon: Option<(u16, Seq<char>)>)
    requires
        rcon is Some,
    ensures
        property_line("enable-rcon=true"@, port, level_name, rcon) == "enable-rcon=true"@,
        property_line("rcon.port="@ + decimal(rcon.unwrap().0 as nat), port, level_name, rcon)
            == "rcon.port="@ + decimal(rcon.unwrap().0 as nat),
        property_line("rcon.password="@ + rcon.unwrap().1, port, level_name, rcon) == "rcon.password="@
            + rcon.unwrap().1,
{
    reveal_strlit("server-port=");
    reveal_strlit("enable-rcon=");
    reveal_strlit("enable-rcon=true");
    reveal_strlit("rcon.port=");
    reveal_strlit("rcon.password=");
    reveal_strlit("level-name=");
    let sp = "server-port="@;
    let er = "enable-rcon="@;
    let rp = "rcon.port="@;
    let pw = "rcon.password="@;
    let e = "enable-rcon=true"@;
    let rl = rp + decimal(rcon.unwrap().0 as nat);
    let pl = pw + rcon.unwrap().1;
    assert(e.subrange(0, er.len() as int) =~= er);
    lemma_prefix_of_concat(rp, decimal(rcon.unwrap().0 as nat));
    lemma_prefix_of_concat(pw, rcon.unwrap().1);
    if has_prefix(e, sp) {
        lemma_prefix_char(e, sp, 0);
    }
    if has_prefix(e, rp) {
        lemma_prefix_char(e, rp, 0);
    }
    if has_prefix(rl, sp) {
        lemma_prefix_char(rl, sp, 0);
        lemma_prefix_char(rl, rp, 0);
    }
    lemma_prefix_char(pl, pw, 0);
    lemma_prefix_char(pl, pw, 6);
    if has_prefix(pl, sp) {
        lemma_prefix_char(pl, sp, 0);
    }
    if has_prefix(pl, rp) {
        lemma_prefix_char(pl, rp, 6);
    }
    if has_prefix(pl, er) {
        lemma_prefix_char(pl, er, 0);
    }
}

/// The written lines hold a line beginning with each RCON key.
proof fn lemma_rcon_keys_written(
    text: Seq<char>,
    port: u16,
    level_name: Seq<char>,
    rcon: Option<(u16, Seq<char>)>,
    key: Seq<char>,
) -> (k: int)
    requires
        rcon is Some,
        key == "enable-rcon="@ || key == "rcon.port="@ || key == "rcon.password="@,
    ensures
        0 <= k < rewritten_lines(text, port, level_name, rcon).len(),
        has_prefix(rewritten_lines(text, port, level_name, rcon)[k], key),
{
    reveal_strlit("enable-rcon=");
    reveal_strlit("enable-rcon=true");
    let f = |l: Seq<char>| property_line(l, port, level_name, rcon);
    let ls = lines_of(text);
    let ms = rewritten_lines(text, port, level_name, rcon);
    let er = "enable-rcon="@;
    let rp = "rcon.port="@;
    let pw = "rcon.password="@;
    assert("enable-rcon=true"@.subrange(0, er.len() as int) =~= er);
    lemma_prefix_of_concat(rp, decimal(rcon.unwrap().0 as nat));
    lemma_prefix_of_concat(pw, rcon.unwrap().1);
    lemma_rcon_lines_kept(port, level_name, rcon);
    if some_line_has_prefix(text, key) {
        let j = choose|j: int| 0 <= j < ls.len() && has_prefix(#[trigger] ls[j], key);
        assert(ms[j] == f(ls[j]));
        // the line keeps its key: rewriting it again leaves it, and it began with the key
        lemma_key_line_rewrites_to(ls[j], port, level_name, rcon, key);
        j
    } else {
        let a = appended_rcon_lines(text, rcon);
        let base = ls.map_values(f).len() as int;
        if key == er {
            assert(a[0] == "enable-rcon=true"@);
            assert(ms[base] == a[0]);
            base
        } else if key == rp {
            let i: int = if some_line_has_prefix(text, er) { 0 } else { 1 };
            assert(a[i] == rp + decimal(rcon.unwrap().0 as nat));
            assert(ms[base + i] == a[i]);
            base + i
        } else {
            let i: int = (if some_line_has_prefix(text, er) { 0int } else { 1int }) + (if some_line_has_prefix(text, rp) { 0int } else { 1int });
            assert(a[i] == pw + rcon.unwrap().1);
            assert(ms[base + i] == a[i]);
            base + i
        }
    }
}

/// The RCON line of a key: `enable-rcon=true`, `rcon.port=` with the RCON
/// port, or `rcon.password=` with the password.
pub open spec fn rcon_line(key: Seq<char>, rcon_port: u16, password: Seq<char>) -> Seq<char> {
    if key == "enable-rcon="@ {
        "enable-rcon=true"@
    } else if key == "rcon.port="@ {
        "rcon.port="@ + decimal(rcon_port as nat)
    } else {
        "rcon.password="@ + password
    }
}

/// A line that begins with an RCON key is rewritten to that key's RCON line.
proof fn lemma_key_line_rewrites_to(
    line: Seq<char>,
    port: u16,
    level_name: Seq<char>,
    rcon: Option<(u16, Seq<char>)>,
    key: Seq<char>,
)
    requires
        rcon is Some,
        key == "enable-rcon="@ || key == "rcon.port="@ || key == "rcon.password="@,
        has_prefix(line, key),
    ensures
        property_line(line, port, level_name, rcon) == rcon_line(key, rcon.unwrap().0, rcon.unwrap().1),
        has_prefix(property_line(line, port, level_name, rcon), key),
{
    reveal_strlit("server-port=");
    reveal_strlit("enable-rcon=");
    reveal_strlit("enable-rcon=true");
    reveal_strlit("rcon.port=");
    reveal_strlit("rcon.password=");
    let sp = "server-port="@;
    let er = "enable-rcon="@;
    let rp = "rcon.port="@;
    let pw = "rcon.password="@;
    lemma_prefix_char(line, key, 0);
    if has_prefix(line, sp) {
        lemma_prefix_char(line, sp, 0);
    }
    if key == er {
        if has_prefix(line, rp) {
            lemma_prefix_char(line, rp, 0);
        }
        assert("enable-rcon=true"@.subrange(0, er.len() as int) =~= er);
    } else if key == rp {
        lemma_prefix_of_concat(rp, decimal(rcon.unwrap().0 as nat));
    } else {
        lemma_prefix_char(line, key, 6);
        if has_prefix(line, rp) {
            lemma_prefix_char(line, rp, 6);
        }
        if has_prefix(line, er) {
            lemma_prefix_char(line, er, 0);
        }
        lemma_prefix_of_concat(pw, rcon.unwrap().1);
    }
}

/// The first-start rewrite is stable: rewriting its own output again changes
/// nothing, whenever the output, split into lines and rewritten line by line,
/// gives back the lines it was written from. That is so in particular when
/// those lines split back cleanly once joined (none holds a newline, none but
/// the last ends with a carriage return, and the last is not empty).
pub proof fn law_first_start_rewrite_is_stable(
    text: Seq<char>,
    port: u16,
    level_name: Seq<char>,
    rcon: Option<(u16, Seq<char>)>,
)
    requires
        rejoinable(rewritten_lines(text, port, level_name, rcon)) || lines_of(
            rewritten_properties(text, port, level_name, rcon),
        ).map_values(|l: Seq<char>| property_line(l, port, level_name, rcon)) == rewritten_lines(
            text,
            port,
            level_name,
            rcon,
        ),
    ensures
        rewritten_properties(rewritten_properties(text, port, level_name, rcon), port, level_name, rcon)
            == rewritten_properties(text, port, level_name, rcon),
{
    let f = |l: Seq<char>| property_line(l, port, level_name, rcon);
    let ls = lines_of(text);
    let ms = rewritten_lines(text, port, level_name, rcon);
    let out = rewritten_properties(text, port, level_name, rcon);
    let ls2 = lines_of(out);
    if rejoinable(ms) {
        lemma_lines_of_join(ms);
        if rcon is Some {
            lemma_rcon_lines_kept(port, level_name, rcon);
        }
        assert forall|k: int| 0 <= k < ms.len() implies #[trigger] ms.map_values(f)[k] == ms[k] by {
            if k < ls.len() {
                lemma_property_line_stable(ls[k], port, level_name, rcon);
                assert(ms[k] == f(ls[k]));
            } else {
                let a = appended_rcon_lines(text, rcon);
                assert(ms[k] == a[k - ls.len()]);
            }
        }
        assert(ms.map_values(f) =~= ms);
    }
    assert(ls2.map_values(f) == ms);
    if rcon is Some {
        let keys = seq!["enable-rcon="@, "rcon.port="@, "rcon.password="@];
        assert forall|i: int| 0 <= i < 3 implies some_line_has_prefix(out, #[trigger] keys[i]) by {
            let key = keys[i];
            let k = lemma_rcon_keys_written(text, port, level_name, rcon, key);
            assert(ms[k] == f(ls2[k]));
            lemma_rcon_key_kept(ls2[k], port, level_name, rcon, key);
        }
        assert(some_line_has_prefix(out, keys[0]));
        assert(some_line_has_prefix(out, keys[1]));
        assert(some_line_has_prefix(out, keys[2]));
        assert(appended_rcon_lines(out, rcon) =~= Seq::<Seq<char>>::empty());
    }
    assert(rewritten_lines(out, port, level_name, rcon) =~= ms);
}

/// The lines of a server description after marking it as started, before
/// they are joined.
pub open spec fn marked_lines(text: Seq<char>) -> Seq<Seq<char>> {
    lines_of(text).map_values(|l: Seq<char>| started_line(l))
}

/// After marking, every line of the description that assigns
/// `has_been_started` sets it to true.
pub proof fn law_marked_lines_say_started(text: Seq<char>, j: int)
    requires
        0 <= j < marked_lines(text).len(),
    ensures
        has_prefix(marked_lines(text)[j], "has_been_started ="@) ==> marked_lines(text)[j]
            == "has_been_started = true"@,
{
    reveal_strlit("has_been_started =");
    reveal_strlit("has_been_started = true");
    let p = "has_been_started ="@;
    let l = lines_of(text)[j];
    if !has_prefix(l, p) && has_prefix(marked_lines(text)[j], p) {
        assert(marked_lines(text)[j] == l);
    }
}

/// Marking a server description as started is stable: marking its own
/// output again changes nothing, whenever the output, split into lines and
/// marked line by line, gives back the lines it was written from (as it does
/// when those lines split back cleanly once joined), or the output is empty.
pub proof fn law_mark_started_is_stable(text: Seq<char>)
    requires
        rejoinable(marked_lines(text)) || marked_started(text).len() == 0 || lines_of(
            marked_started(text),
        ).map_values(|l: Seq<char>| started_line(l)) == marked_lines(text),
    ensures
        marked_started(marked_started(text)) == marked_started(text),
{
    reveal_strlit("has_been_started =");
    reveal_strlit("has_been_started = true");
    reveal_strlit(" true");
    let p = "has_been_started ="@;
    let t = "has_been_started = true"@;
    assert(t =~= p + " true"@);
    lemma_prefix_of_concat(p, " true"@);
    let f = |l: Seq<char>| started_line(l);
    let ms = lines_of(text).map_values(f);
    assert(ms == marked_lines(text));
    if rejoinable(ms) {
        lemma_lines_of_join(ms);
        assert forall|k: int| 0 <= k < ms.len() implies #[trigger] ms.map_values(f)[k] == ms[k] by {
            assert(ms[k] == f(lines_of(text)[k]));
        }
        assert(ms.map_values(f) =~= ms);
    } else if join_lines(ms).len() == 0 {
        let e = join_lines(ms);
        assert(e =~= Seq::<char>::empty());
        assert(lines_of(e) =~= Seq::<Seq<char>>::empty());
        assert(lines_of(e).map_values(f) =~= Seq::<Seq<char>>::empty());
    }
}

/// For one RCON key: the written lines hold the key's RCON line, and every
/// written line that sets that key is that line.
proof fn lemma_rcon_key_set(
    text: Seq<char>,
    port: u16,
    level_name: Seq<char>,
    rcon: Option<(u16, Seq<char>)>,
    key: Seq<char>,
)
    requires
        rcon is Some,
        key == "enable-rcon="@ || key == "rcon.port="@ || key == "rcon.password="@,
    ensures
        ({
            let ms = rewritten_lines(text, port, level_name, rcon);
            let want = rcon_line(key, rcon.unwrap().0, rcon.unwrap().1);
            &&& exists|k: int| 0 <= k < ms.len() && ms[k] == want
            &&& forall|k: int| 0 <= k < ms.len() && has_prefix(#[trigger] ms[k], key) ==> ms[k] == want
        }),
{
    let f = |l: Seq<char>| property_line(l, port, level_name, rcon);
    let ls = lines_of(text);
    let ms = rewritten_lines(text, port, level_name, rcon);
    let want = rcon_line(key, rcon.unwrap().0, rcon.unwrap().1);
    lemma_rcon_lines_kept(port, level_name, rcon);
    assert forall|k: int| 0 <= k < ms.len() && has_prefix(#[trigger] ms[k], key) implies ms[k] == want by {
        if k < ls.len() {
            assert(ms[k] == f(ls[k]));
            lemma_rcon_key_kept(ls[k], port, level_name, rcon, key);
            lemma_key_line_rewrites_to(ls[k], port, level_name, rcon, key);
        } else {
            let a = appended_rcon_lines(text, rcon);
            assert(ms[k] == a[k - ls.len()]);
            assert(f(ms[k]) == ms[k]);
            lemma_key_line_rewrites_to(ms[k], port, level_name, rcon, key);
        }
    }
    let k = lemma_rcon_keys_written(text, port, level_name, rcon, key);
    assert(ms[k] == want);
}

/// RCON is enabled on every server's first start, with the server's own RCON
/// port and password: the lines written to `server.properties` include
/// `enable-rcon=true`, `rcon.port=` with the server's RCON port and
/// `rcon.password=` with its password (added at the end where the file had
/// none), and no written line sets any of these keys otherwise. When the
/// written lines split back cleanly, they are exactly the lines of the file.
pub proof fn law_first_start_enables_rcon(text: Seq<char>, name: Seq<char>, info: ServerInfo)
    ensures
        ({
            let rcon = Some((info.rcon_port, info.rcon_password@));
            let ms = rewritten_lines(text, info.port, name, rcon);
            &&& exists|k: int| 0 <= k < ms.len() && ms[k] == "enable-rcon=true"@
            &&& exists|k: int|
                0 <= k < ms.len() && ms[k] == "rcon.port="@ + decimal(info.rcon_port as nat)
            &&& exists|k: int| 0 <= k < ms.len() && ms[k] == "rcon.password="@ + info.rcon_password@
            &&& forall|k: int|
                0 <= k < ms.len() && has_prefix(#[trigger] ms[k], "enable-rcon="@) ==> ms[k]
                    == "enable-rcon=true"@
            &&& forall|k: int|
                0 <= k < ms.len() && has_prefix(#[trigger] ms[k], "rcon.port="@) ==> ms[k]
                    == "rcon.port="@ + decimal(info.rcon_port as nat)
            &&& forall|k: int|
                0 <= k < ms.len() && has_prefix(#[trigger] ms[k], "rcon.password="@) ==> ms[k]
                    == "rcon.password="@ + info.rcon_password@
            &&& rejoinable(ms) ==> lines_of(rewritten_properties(text, info.port, name, rcon)) == ms
        }),
{
    let rcon = Some((info.rcon_port, info.rcon_password@));
    let ms = rewritten_lines(text, info.port, name, rcon);
    reveal_strlit("enable-rcon=");
    reveal_strlit("rcon.port=");
    reveal_strlit("rcon.password=");
    let er = "enable-rcon="@;
    let rp = "rcon.port="@;
    let pw = "rcon.password="@;
    assert(er[0] != rp[0] && er[0] != pw[0] && rp[6] != pw[6]);
    assert(rcon_line(er, info.rcon_port, info.rcon_password@) == "enable-rcon=true"@);
    assert(rcon_line(rp, info.rcon_port, info.rcon_password@) == rp + decimal(info.rcon_port as nat));
    assert(rcon_line(pw, info.rcon_port, info.rcon_password@) == pw + info.rcon_password@);
    lemma_rcon_key_set(text, info.port, name, rcon, "enable-rcon="@);
    lemma_rcon_key_set(text, info.port, name, rcon, "rcon.port="@);
    lemma_rcon_key_set(text, info.port, name, rcon, "rcon.password="@);
    if rejoinable(ms) {
        lemma_lines_of_join(ms);
    }
}

} // verus!
