//! What a file of settings says, and that the default one says nothing new.

use vstd::prelude::*;

use crate::config::{ConfigView, EnvVarsView, DEFAULT_CONFIG_TEMPLATE};
use crate::report::setting_remarks;
use crate::settings::{configured, default_config, law_defaults, platform_mode_text};
use crate::settings::{requested_config, stun_url_text, unset_vars};
use crate::text::{ascii_lowercase, decimal_text, law_parsed_decimal_text, lowercase, parsed};
use crate::text::ParseIntError;

verus! {

/// How many characters stand before the first `c`; all of them where there is none.
pub open spec fn length_before(text: Seq<char>, c: char) -> nat
    decreases text.len(),
{
    if text.len() == 0 || text[0] == c {
        0
    } else {
        1 + length_before(text.drop_first(), c)
    }
}

/// The first line of a text, without the line feed that ends it.
pub open spec fn first_line(text: Seq<char>) -> Seq<char> {
    text.take(length_before(text, '\n') as int)
}

/// What follows the first line of a text and its line feed.
pub open spec fn other_lines(text: Seq<char>) -> Seq<char> {
    let len = length_before(text, '\n');
    if len < text.len() {
        text.skip(len as int + 1)
    } else {
        Seq::empty()
    }
}

/// What a line of plain characters sets: the name before its first equals sign, to the
/// value after it. An empty line sets nothing, nor does a comment or a line without an
/// equals sign.
pub open spec fn line_setting(line: Seq<char>) -> Option<(Seq<char>, Seq<char>)> {
    let len = length_before(line, '=');
    if line.len() == 0 || line[0] == '#' || len == line.len() {
        None
    } else {
        Some((line.take(len as int), line.skip(len as int + 1)))
    }
}

/// What a text sets, line by line. The first line that sets a name has its way.
pub open spec fn file_settings(text: Seq<char>) -> Map<Seq<char>, Seq<char>>
    decreases text.len(),
{
    if text.len() == 0 {
        Map::empty()
    } else {
        let rest = file_settings(other_lines(text));
        match line_setting(first_line(text)) {
            Some((name, value)) => rest.insert(name, value),
            None => rest,
        }
    }
}

/// The value of a name, where it is set.
pub open spec fn value_of(settings: Map<Seq<char>, Seq<char>>, name: Seq<char>) -> Option<
    Seq<char>,
> {
    if settings.dom().contains(name) {
        Some(settings[name])
    } else {
        None
    }
}

/// An environment in which nothing is set but by these settings.
pub open spec fn vars_of(settings: Map<Seq<char>, Seq<char>>) -> EnvVarsView {
    EnvVarsView {
        port: value_of(settings, "PORT"@),
        stun_port: value_of(settings, "STUN_PORT"@),
        stun_url: value_of(settings, "STUN_URL"@),
        platform_mode: value_of(settings, "PLATFORM_MODE"@),
        max_connections: value_of(settings, "MAX_CONNECTIONS"@),
        max_connections_per_ip: value_of(settings, "MAX_CONNECTIONS_PER_IP"@),
        ice_gathering_timeout_secs: value_of(settings, "ICE_GATHERING_TIMEOUT_SECS"@),
        overall_request_timeout_secs: value_of(settings, "OVERALL_REQUEST_TIMEOUT_SECS"@),
        periodic_cleanup_interval_secs: value_of(settings, "PERIODIC_CLEANUP_INTERVAL_SECS"@),
        stale_connection_age_secs: value_of(settings, "STALE_CONNECTION_AGE_SECS"@),
        nat_1to1_ip: value_of(settings, "NAT_1TO1_IP"@),
        ice_port_min: value_of(settings, "ICE_PORT_MIN"@),
        ice_port_max: value_of(settings, "ICE_PORT_MAX"@),
    }
}

/// The name and the value of each setting that has a default.
pub open spec fn default_settings() -> Map<Seq<char>, Seq<char>> {
    map![
        "PLATFORM_MODE"@ => "self"@,
        "PORT"@ => "8080"@,
        "STUN_PORT"@ => "3478"@,
        "STUN_URL"@ => "auto"@,
        "MAX_CONNECTIONS"@ => "500"@,
        "MAX_CONNECTIONS_PER_IP"@ => "10"@,
        "ICE_GATHERING_TIMEOUT_SECS"@ => "2"@,
        "OVERALL_REQUEST_TIMEOUT_SECS"@ => "30"@,
        "STALE_CONNECTION_AGE_SECS"@ => "120"@,
        "PERIODIC_CLEANUP_INTERVAL_SECS"@ => "5"@,
        "RUST_LOG"@ => "info"@,
    ]
}

proof fn lemma_length_before(text: Seq<char>, c: char, n: int)
    requires
        0 <= n < text.len(),
        text[n] == c,
        forall|i: int| 0 <= i < n ==> #[trigger] text[i] != c,
    ensures
        length_before(text, c) == n,
    decreases n,
{
    if n > 0 {
        let rest = text.drop_first();
        assert forall|i: int| 0 <= i < n - 1 implies #[trigger] rest[i] != c by {
            assert(rest[i] == text[i + 1]);
        }
        lemma_length_before(rest, c, n - 1);
    }
}

/// Reads on over a line that sets nothing.
proof fn lemma_comment(text: Seq<char>, start: int, len: int)
    requires
        0 <= start,
        0 <= len,
        start + len < text.len(),
        text[start + len] == '\n',
        forall|i: int| start <= i < start + len ==> #[trigger] text[i] != '\n',
        len == 0 || text[start] == '#',
    ensures
        file_settings(text.skip(start)) == file_settings(text.skip(start + len + 1)),
{
    let rest = text.skip(start);
    lemma_length_before(rest, '\n', len);
    assert(rest.skip(len + 1) =~= text.skip(start + len + 1));
}

/// Reads on over a line that sets `name` to `value`.
proof fn lemma_setting(text: Seq<char>, start: int, name: Seq<char>, value: Seq<char>)
    requires
        0 <= start,
        name.len() > 0,
        name[0] != '#',
        start + name.len() + 1 + value.len() < text.len(),
        text[start + name.len() + 1 + value.len()] == '\n',
        text[start + name.len()] == '=',
        forall|i: int| 0 <= i < name.len() ==> #[trigger] name[i] != '=' && name[i] != '\n',
        forall|i: int| 0 <= i < value.len() ==> #[trigger] value[i] != '\n',
        text.subrange(start, start + name.len()) =~= name,
        text.subrange(start + name.len() + 1, start + name.len() + 1 + value.len()) =~= value,
    ensures
        file_settings(text.skip(start)) == file_settings(
            text.skip(start + name.len() + 1 + value.len() + 1),
        ).insert(name, value),
{
    let rest = text.skip(start);
    let len = name.len() + 1 + value.len();
    assert forall|i: int| 0 <= i < len implies #[trigger] rest[i] != '\n' by {
        if i < name.len() {
            assert(rest[i] == text.subrange(start, start + name.len())[i]);
        } else if i > name.len() {
            assert(rest[i] == text.subrange(
                start + name.len() + 1,
                start + len,
            )[i - name.len() - 1]);
        }
    }
    lemma_length_before(rest, '\n', len as int);
    let line = rest.take(len as int);
    assert forall|i: int| 0 <= i < name.len() implies #[trigger] line[i] != '=' by {
        assert(line[i] == text.subrange(start, start + name.len())[i]);
    }
    lemma_length_before(line, '=', name.len() as int);
    assert(line.take(name.len() as int) =~= text.subrange(start, start + name.len()));
    assert(line.skip(name.len() as int + 1) =~= text.subrange(start + name.len() + 1, start + len));
    assert(rest.skip(len as int + 1) =~= text.skip(start + len + 1));
}

/// The default file sets every setting that has a default to it, and sets nothing else.
#[verifier::rlimit(50)]
pub proof fn law_template_sets_the_defaults()
    ensures
        file_settings(DEFAULT_CONFIG_TEMPLATE@) == default_settings(),
{
    let text = DEFAULT_CONFIG_TEMPLATE@;
    reveal_strlit(
        r#"# WebRTC UDP Test Server Configuration
# All values have sensible defaults

# Mode: 'web' (public/strict) or 'self' (self-hosted/flexible)
PLATFORM_MODE=self

PORT=8080
STUN_PORT=3478

# STUN URL: auto (detect local IP), stun:host:port, or none
STUN_URL=auto

# NAT 1-to-1 Mapping (for Docker/Cloud)
#NAT_1TO1_IP=

# Connection Limits
MAX_CONNECTIONS=500
MAX_CONNECTIONS_PER_IP=10

# ICE Port Range (UDP)
#ICE_PORT_MIN=
#ICE_PORT_MAX=

# Timeouts (seconds)
ICE_GATHERING_TIMEOUT_SECS=2
OVERALL_REQUEST_TIMEOUT_SECS=30
STALE_CONNECTION_AGE_SECS=120
PERIODIC_CLEANUP_INTERVAL_SECS=5

# Logging: trace, debug, info, warn, error
RUST_LOG=info
"#,
    );
    // Line by line, by where each begins and how long it is.
    lemma_comment(text, 0, 38);
    lemma_comment(text, 39, 35);
    lemma_comment(text, 75, 0);
    lemma_comment(text, 76, 62);
    reveal_strlit("PLATFORM_MODE");
    reveal_strlit("self");
    lemma_setting(text, 139, "PLATFORM_MODE"@, "self"@);
    lemma_comment(text, 158, 0);
    reveal_strlit("PORT");
    reveal_strlit("8080");
    lemma_setting(text, 159, "PORT"@, "8080"@);
    reveal_strlit("STUN_PORT");
    reveal_strlit("3478");
    lemma_setting(text, 169, "STUN_PORT"@, "3478"@);
    lemma_comment(text, 184, 0);
    lemma_comment(text, 185, 59);
    reveal_strlit("STUN_URL");
    reveal_strlit("auto");
    lemma_setting(text, 245, "STUN_URL"@, "auto"@);
    lemma_comment(text, 259, 0);
    lemma_comment(text, 260, 39);
    lemma_comment(text, 300, 13);
    lemma_comment(text, 314, 0);
    lemma_comment(text, 315, 19);
    reveal_strlit("MAX_CONNECTIONS");
    reveal_strlit("500");
    lemma_setting(text, 335, "MAX_CONNECTIONS"@, "500"@);
    reveal_strlit("MAX_CONNECTIONS_PER_IP");
    reveal_strlit("10");
    lemma_setting(text, 355, "MAX_CONNECTIONS_PER_IP"@, "10"@);
    lemma_comment(text, 381, 0);
    lemma_comment(text, 382, 22);
    lemma_comment(text, 405, 14);
    lemma_comment(text, 420, 14);
    lemma_comment(text, 435, 0);
    lemma_comment(text, 436, 20);
    reveal_strlit("ICE_GATHERING_TIMEOUT_SECS");
    reveal_strlit("2");
    lemma_setting(text, 457, "ICE_GATHERING_TIMEOUT_SECS"@, "2"@);
    reveal_strlit("OVERALL_REQUEST_TIMEOUT_SECS");
    reveal_strlit("30");
    lemma_setting(text, 486, "OVERALL_REQUEST_TIMEOUT_SECS"@, "30"@);
    reveal_strlit("STALE_CONNECTION_AGE_SECS");
    reveal_strlit("120");
    lemma_setting(text, 518, "STALE_CONNECTION_AGE_SECS"@, "120"@);
    reveal_strlit("PERIODIC_CLEANUP_INTERVAL_SECS");
    reveal_strlit("5");
    lemma_setting(text, 548, "PERIODIC_CLEANUP_INTERVAL_SECS"@, "5"@);
    lemma_comment(text, 581, 0);
    lemma_comment(text, 582, 42);
    reveal_strlit("RUST_LOG");
    reveal_strlit("info");
    lemma_setting(text, 625, "RUST_LOG"@, "info"@);
    assert(text.skip(0) =~= text);
    assert(file_settings(text.skip(639)) == Map::<Seq<char>, Seq<char>>::empty());
    assert("STUN_URL"@[0] != "RUST_LOG"@[0]);
    assert(file_settings(text) =~= default_settings());
}

/// The settings that have a default, as an environment.
pub open spec fn default_vars() -> EnvVarsView {
    EnvVarsView {
        port: Some("8080"@),
        stun_port: Some("3478"@),
        stun_url: Some("auto"@),
        platform_mode: Some("self"@),
        max_connections: Some("500"@),
        max_connections_per_ip: Some("10"@),
        ice_gathering_timeout_secs: Some("2"@),
        overall_request_timeout_secs: Some("30"@),
        periodic_cleanup_interval_secs: Some("5"@),
        stale_connection_age_secs: Some("120"@),
        nat_1to1_ip: None,
        ice_port_min: None,
        ice_port_max: None,
    }
}

proof fn lemma_default_vars()
    ensures
        vars_of(default_settings()) == default_vars(),
{
    reveal_strlit("PLATFORM_MODE");
    reveal_strlit("PORT");
    reveal_strlit("STUN_PORT");
    reveal_strlit("STUN_URL");
    reveal_strlit("MAX_CONNECTIONS");
    reveal_strlit("MAX_CONNECTIONS_PER_IP");
    reveal_strlit("ICE_GATHERING_TIMEOUT_SECS");
    reveal_strlit("OVERALL_REQUEST_TIMEOUT_SECS");
    reveal_strlit("STALE_CONNECTION_AGE_SECS");
    reveal_strlit("PERIODIC_CLEANUP_INTERVAL_SECS");
    reveal_strlit("RUST_LOG");
    reveal_strlit("NAT_1TO1_IP");
    reveal_strlit("ICE_PORT_MIN");
    reveal_strlit("ICE_PORT_MAX");
    assert("PLATFORM_MODE"@.len() == 13);
    assert("PORT"@.len() == 4);
    assert("STUN_PORT"@.len() == 9);
    assert("STUN_URL"@.len() == 8);
    assert("MAX_CONNECTIONS"@.len() == 15);
    assert("MAX_CONNECTIONS_PER_IP"@.len() == 22);
    assert("ICE_GATHERING_TIMEOUT_SECS"@.len() == 26);
    assert("OVERALL_REQUEST_TIMEOUT_SECS"@.len() == 28);
    assert("STALE_CONNECTION_AGE_SECS"@.len() == 25);
    assert("PERIODIC_CLEANUP_INTERVAL_SECS"@.len() == 30);
    assert("RUST_LOG"@.len() == 8);
    assert("NAT_1TO1_IP"@.len() == 11);
    assert("ICE_PORT_MIN"@.len() == 12);
    assert("ICE_PORT_MAX"@.len() == 12);
    assert("STUN_URL"@[0] != "RUST_LOG"@[0]);
}

proof fn lemma_default_number(text: Seq<char>, n: nat, max: nat)
    requires
        text =~= decimal_text(n),
        n <= max,
    ensures
        parsed(text, max) == Ok::<nat, ParseIntError>(n),
{
    law_parsed_decimal_text(n, max);
}

/// A server that reads the default file, and otherwise nothing, is set up as one that
/// reads nothing at all, and the same is said about it.
pub proof fn law_template_changes_nothing(lan_ip: Option<Seq<char>>)
    ensures
        ({
            let vars = vars_of(file_settings(DEFAULT_CONFIG_TEMPLATE@));
            let stun_keyword = lowercase(stun_url_text(vars));
            let mode_keyword = lowercase(platform_mode_text(vars));
            &&& stun_keyword == lowercase(stun_url_text(unset_vars()))
            &&& mode_keyword == lowercase(platform_mode_text(unset_vars()))
            &&& configured(vars, stun_keyword, mode_keyword, lan_ip) == configured(
                unset_vars(),
                stun_keyword,
                mode_keyword,
                lan_ip,
            )
            &&& configured(vars, stun_keyword, mode_keyword, lan_ip) == Ok::<
                ConfigView,
                Seq<char>,
            >(default_config(lan_ip))
            &&& setting_remarks(vars, stun_keyword, mode_keyword, lan_ip) == setting_remarks(
                unset_vars(),
                stun_keyword,
                mode_keyword,
                lan_ip,
            )
        }),
{
    law_template_sets_the_defaults();
    lemma_default_vars();
    let vars = default_vars();
    reveal_strlit("auto");
    reveal_strlit("self");
    reveal_strlit("500");
    reveal_strlit("10");
    reveal_strlit("2");
    reveal_strlit("30");
    reveal_strlit("5");
    reveal_strlit("120");
    reveal_with_fuel(decimal_text, 4);
    lemma_default_number("500"@, 500, usize::MAX as nat);
    lemma_default_number("10"@, 10, usize::MAX as nat);
    lemma_default_number("2"@, 2, u64::MAX as nat);
    lemma_default_number("30"@, 30, u64::MAX as nat);
    lemma_default_number("5"@, 5, u64::MAX as nat);
    lemma_default_number("120"@, 120, u64::MAX as nat);
    assert(ascii_lowercase("auto"@) =~= "auto"@);
    assert(ascii_lowercase("self"@) =~= "self"@);
    law_defaults(lan_ip);
    assert(requested_config(vars, "auto"@, "self"@, lan_ip) == requested_config(
        unset_vars(),
        "auto"@,
        "self"@,
        lan_ip,
    ));
    assert(setting_remarks(vars, "auto"@, "self"@, lan_ip) =~= setting_remarks(
        unset_vars(),
        "auto"@,
        "self"@,
        lan_ip,
    ));
}

} // verus!
