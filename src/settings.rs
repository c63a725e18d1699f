use vstd::prelude::*;

verus! {

pub const DEFAULT_MAX_LOCK_RETRIES: u32 = 30;

pub const DEFAULT_LOCK_RETRY_DELAY_MS: u64 = 1000;

pub open spec fn is_digit(c: char) -> bool {
    '0' <= c && c <= '9'
}

pub open spec fn digit_value(c: char) -> nat {
    (c as u32 - '0' as u32) as nat
}

/// The number written in decimal by the digits `s`.
pub open spec fn digits_value(s: Seq<char>) -> nat
    decreases s.len(),
{
    if s.len() == 0 {
        0
    } else {
        digits_value(s.drop_last()) * 10 + digit_value(s.last())
    }
}

/// The digits of an unsigned number's text: without its optional leading `+`.
pub open spec fn unsigned_digits(s: Seq<char>) -> Seq<char> {
    if s.len() > 0 && s[0] == '+' {
        s.drop_first()
    } else {
        s
    }
}

/// The text of an unsigned decimal number: an optional `+`, then one digit or more.
pub open spec fn is_unsigned_text(s: Seq<char>) -> bool {
    let d = unsigned_digits(s);
    d.len() > 0 && forall|i: int| 0 <= i < d.len() ==> is_digit(#[trigger] d[i])
}

/// The number that `s` denotes, when it is unsigned decimal text of a value
/// no greater than `limit`.
pub open spec fn unsigned_value(s: Seq<char>, limit: nat) -> Option<nat> {
    if is_unsigned_text(s) && digits_value(unsigned_digits(s)) <= limit {
        Some(digits_value(unsigned_digits(s)))
    } else {
        None
    }
}

proof fn lemma_digits_step(d: Seq<char>, i: int)
    requires
        0 <= i < d.len(),
    ensures
        digits_value(d.take(i + 1)) == digits_value(d.take(i)) * 10 + digit_value(d[i]),
{
    assert(d.take(i + 1).drop_last() =~= d.take(i));
}

/// Reads unsigned decimal text (an optional `+`, then ASCII digits) whose value
/// is at most `limit`; anything else gives `None`.
pub fn parse_unsigned(s: &str, limit: u64) -> (r: Option<u64>)
    ensures
        r matches Some(v) ==> unsigned_value(s@, limit as nat) == Some(v as nat),
        r is None ==> unsigned_value(s@, limit as nat) is None,
{
    let n = s.unicode_len();
    let mut start: usize = 0;
    if n > 0 && s.get_char(0) == '+' {
        start = 1;
    }
    let ghost d = unsigned_digits(s@);
    assert(d =~= s@.subrange(start as int, n as int));
    if start == n {
        return None;
    }
    let mut value: u128 = 0;
    let mut too_big = false;
    let mut i: usize = start;
    while i < n
        invariant
            start <= i <= n,
            n == s@.len(),
            d == unsigned_digits(s@),
            d =~= s@.subrange(start as int, n as int),
            forall|j: int| 0 <= j < i - start ==> is_digit(#[trigger] d[j]),
            !too_big ==> value == digits_value(d.take(i - start)),
            !too_big ==> value <= limit,
            too_big ==> digits_value(d.take(i - start)) > limit,
        decreases n - i,
    {
        let c = s.get_char(i);
        if !('0' <= c && c <= '9') {
            assert(!is_digit(d[i - start]));
            return None;
        }
        proof {
            lemma_digits_step(d, i - start);
        }
        if !too_big {
            value = value * 10 + (c as u32 - '0' as u32) as u128;
            if value > limit as u128 {
                too_big = true;
            }
        }
        i = i + 1;
    }
    assert(d.take(n - start) =~= d);
    if too_big {
        None
    } else {
        Some(value as u64)
    }
}

/// The value of an optional setting: its default when absent.
pub open spec fn setting_value(text: Option<Seq<char>>, default: nat, limit: nat) -> Option<nat> {
    match text {
        None => Some(default),
        Some(t) => unsigned_value(t, limit),
    }
}

pub open spec fn opt_view(o: Option<String>) -> Option<Seq<char>> {
    match o {
        None => None,
        Some(s) => Some(s@),
    }
}

/// The entries of the configuration's settings section, as written.
pub struct SettingsSection {
    pub watch_directory: Option<String>,
    pub max_lock_retries: Option<String>,
    pub lock_retry_delay_ms: Option<String>,
}

#[derive(Debug, Clone, Copy, PartialEq, Eq, Structural)]
pub enum SettingsError {
    MissingSection,
    MissingWatchDirectory,
    InvalidMaxLockRetries,
    InvalidLockRetryDelay,
}

/// Process-wide settings, read once at startup.
pub struct Settings {
    pub watch_directory: String,
    pub max_lock_retries: u32,
    pub lock_retry_delay_ms: u64,
}

pub open spec fn retries_of(sec: SettingsSection) -> Option<nat> {
    setting_value(opt_view(sec.max_lock_retries), DEFAULT_MAX_LOCK_RETRIES as nat, u32::MAX as nat)
}

pub open spec fn delay_of(sec: SettingsSection) -> Option<nat> {
    setting_value(opt_view(sec.lock_retry_delay_ms), DEFAULT_LOCK_RETRY_DELAY_MS as nat, u64::MAX as nat)
}

fn read_setting(text: &Option<String>, default: u64, limit: u64) -> (r: Option<u64>)
    requires
        default <= limit,
    ensures
        r matches Some(v) ==> setting_value(opt_view(*text), default as nat, limit as nat) == Some(v as nat),
        r is None ==> setting_value(opt_view(*text), default as nat, limit as nat) is None,
{
    match text {
        None => Some(default),
        Some(t) => parse_unsigned(t.as_str(), limit),
    }
}

impl Settings {
    /// Builds the settings from the section's entries: the watch directory is
    /// required, the retry count (a positive number) and the delay in
    /// milliseconds fall back to their defaults when absent.
    pub fn from_section(section: Option<&SettingsSection>) -> (r: Result<Settings, SettingsError>)
        ensures
            section is None ==> r == Err::<Settings, SettingsError>(SettingsError::MissingSection),
            section matches Some(sec) ==> {
                if sec.watch_directory is None {
                    r == Err::<Settings, SettingsError>(SettingsError::MissingWatchDirectory)
                } else if retries_of(*sec) is None || retries_of(*sec) == Some(0nat) {
                    r == Err::<Settings, SettingsError>(SettingsError::InvalidMaxLockRetries)
                } else if delay_of(*sec) is None {
                    r == Err::<Settings, SettingsError>(SettingsError::InvalidLockRetryDelay)
                } else {
                    r matches Ok(s) && opt_view(sec.watch_directory) == Some(s.watch_directory@)
                        && retries_of(*sec) == Some(s.max_lock_retries as nat)
                        && delay_of(*sec) == Some(s.lock_retry_delay_ms as nat)
                }
            },
    {
        let sec = match section {
            None => return Err(SettingsError::MissingSection),
            Some(sec) => sec,
        };
        let watch_directory = match &sec.watch_directory {
            None => return Err(SettingsError::MissingWatchDirectory),
            Some(w) => w.clone(),
        };
        let max_lock_retries = match read_setting(
            &sec.max_lock_retries,
            DEFAULT_MAX_LOCK_RETRIES as u64,
            u32::MAX as u64,
        ) {
            Some(v) if v > 0 => v as u32,
            _ => return Err(SettingsError::InvalidMaxLockRetries),
        };
        let lock_retry_delay_ms = match read_setting(
            &sec.lock_retry_delay_ms,
            DEFAULT_LOCK_RETRY_DELAY_MS,
            u64::MAX,
        ) {
            Some(v) => v,
            None => return Err(SettingsError::InvalidLockRetryDelay),
        };
        Ok(Settings { watch_directory, max_lock_retries, lock_retry_delay_ms })
    }
}

} // verus!
