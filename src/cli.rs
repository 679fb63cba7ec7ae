//! The notifier command line's own data and rules: stored tokens and when
//! they must be refreshed, the notification channels it remembers, and how a
//! finished command's duration is shown.

use vstd::prelude::*;

verus! {

/// Stored authentication tokens; `expires_at` is in Unix seconds.
pub struct AuthTokens {
    pub access_token: String,
    pub refresh_token: Option<String>,
    pub expires_at: u64,
}

/// What a caller must do to obtain a usable access token.
pub enum TokenStep {
    /// The stored access token is still valid.
    UseCurrent(String),
    /// It has expired; refresh it with this refresh token.
    Refresh(String),
    /// It has expired and cannot be refreshed: log in again.
    LoginRequired,
}

impl AuthTokens {
    /// Whether the tokens have expired at `now` (Unix seconds).
    pub fn is_expired(&self, now: u64) -> (r: bool)
        ensures
            r == (now >= self.expires_at),
    {
        now >= self.expires_at
    }

    /// The next step towards a usable access token at `now`.
    pub fn next_step(&self, now: u64) -> (r: TokenStep)
        ensures
            now < self.expires_at ==> (r matches TokenStep::UseCurrent(t) && t@
                == self.access_token@),
            now >= self.expires_at && self.refresh_token is Some ==> (r matches TokenStep::Refresh(
                t,
            ) && t@ == self.refresh_token->Some_0@),
            now >= self.expires_at && self.refresh_token is None ==> r is LoginRequired,
    {
        if !self.is_expired(now) {
            return TokenStep::UseCurrent(self.access_token.clone());
        }
        match &self.refresh_token {
            Some(t) => TokenStep::Refresh(t.clone()),
            None => TokenStep::LoginRequired,
        }
    }
}

/// The Discord channel: a webhook URL.
pub struct DiscordConfig {
    pub webhook_url: Option<String>,
}

/// The Telegram channel: a chat id.
pub struct TelegramConfig {
    pub chat_id: Option<String>,
}

/// The phone channel: a number in E.164 form.
pub struct PhoneConfig {
    pub number: Option<String>,
}

/// The email channel: an address.
pub struct EmailConfig {
    pub address: Option<String>,
}

/// Every notification channel the command line remembers.
pub struct Config {
    pub discord: DiscordConfig,
    pub telegram: TelegramConfig,
    pub phone: PhoneConfig,
    pub email: EmailConfig,
}

impl Default for Config {
    /// Nothing configured.
    fn default() -> (r: Self)
        ensures
            r.discord.webhook_url is None,
            r.telegram.chat_id is None,
            r.phone.number is None,
            r.email.address is None,
    {
        Config {
            discord: DiscordConfig { webhook_url: None },
            telegram: TelegramConfig { chat_id: None },
            phone: PhoneConfig { number: None },
            email: EmailConfig { address: None },
        }
    }
}

/// How a wrapped command ended.
pub struct CommandResult {
    pub exit_code: Option<i32>,
    pub duration_secs: u64,
    pub success: bool,
}

pub open spec fn digit_char(d: nat) -> char {
    if d == 0 {
        '0'
    } else if d == 1 {
        '1'
    } else if d == 2 {
        '2'
    } else if d == 3 {
        '3'
    } else if d == 4 {
        '4'
    } else if d == 5 {
        '5'
    } else if d == 6 {
        '6'
    } else if d == 7 {
        '7'
    } else if d == 8 {
        '8'
    } else {
        '9'
    }
}

/// The decimal digits of `n`, without leading zeros.
pub open spec fn decimal(n: nat) -> Seq<char>
    decreases n,
{
    if n < 10 {
        seq![digit_char(n)]
    } else {
        decimal(n / 10).push(digit_char(n % 10))
    }
}

/// The human form of a duration in seconds: `"42s"` under a minute,
/// `"3m 5s"` under an hour, else `"2h 15m"`.
pub open spec fn duration_text(secs: nat) -> Seq<char> {
    if secs < 60 {
        decimal(secs) + "s"@
    } else if secs < 3600 {
        decimal(secs / 60) + "m "@ + decimal(secs % 60) + "s"@
    } else {
        decimal(secs / 3600) + "h "@ + decimal((secs % 3600) / 60) + "m"@
    }
}

fn digit_str(d: u64) -> (r: &'static str)
    requires
        d < 10,
    ensures
        r@ == seq![digit_char(d as nat)],
{
    proof {
        reveal_strlit("0");
        reveal_strlit("1");
        reveal_strlit("2");
        reveal_strlit("3");
        reveal_strlit("4");
        reveal_strlit("5");
        reveal_strlit("6");
        reveal_strlit("7");
        reveal_strlit("8");
        reveal_strlit("9");
    }
    if d == 0 {
        assert("0"@ =~= seq!['0']);
        "0"
    } else if d == 1 {
        assert("1"@ =~= seq!['1']);
        "1"
    } else if d == 2 {
        assert("2"@ =~= seq!['2']);
        "2"
    } else if d == 3 {
        assert("3"@ =~= seq!['3']);
        "3"
    } else if d == 4 {
        assert("4"@ =~= seq!['4']);
        "4"
    } else if d == 5 {
        assert("5"@ =~= seq!['5']);
        "5"
    } else if d == 6 {
        assert("6"@ =~= seq!['6']);
        "6"
    } else if d == 7 {
        assert("7"@ =~= seq!['7']);
        "7"
    } else if d == 8 {
        assert("8"@ =~= seq!['8']);
        "8"
    } else {
        assert("9"@ =~= seq!['9']);
        "9"
    }
}

/// Appends the decimal digits of `n` to `out`.
fn push_decimal(out: &mut String, n: u64)
    ensures
        final(out)@ == old(out)@ + decimal(n as nat),
    decreases n,
{
    if n >= 10 {
        push_decimal(out, n / 10);
    }
    out.append(digit_str(n % 10));
    assert(out@ =~= old(out)@ + decimal(n as nat));
}

impl CommandResult {
    /// The duration in human form.
    pub fn format_duration(&self) -> (r: String)
        ensures
            r@ == duration_text(self.duration_secs as nat),
    {
        let secs = self.duration_secs;
        let mut out = String::new();
        if secs < 60 {
            push_decimal(&mut out, secs);
            out.append("s");
        } else if secs < 3600 {
            push_decimal(&mut out, secs / 60);
            out.append("m ");
            push_decimal(&mut out, secs % 60);
            out.append("s");
        } else {
            push_decimal(&mut out, secs / 3600);
            out.append("h ");
            push_decimal(&mut out, (secs % 3600) / 60);
            out.append("m");
        }
        assert(out@ =~= duration_text(secs as nat));
        out
    }
}

} // verus!
