use vstd::prelude::*;

verus! {

/// Whether two texts are the same, character for character.
fn text_is(s: &str, lit: &str) -> (r: bool)
    ensures
        r <==> s@ == lit@,
{
    let n = s.unicode_len();
    if n != lit.unicode_len() {
        return false;
    }
    let mut i: usize = 0;
    while i < n
        invariant
            n == s@.len(),
            n == lit@.len(),
            i <= n,
            forall|k: int| 0 <= k < i ==> s@[k] == lit@[k],
        decreases n - i,
    {
        if s.get_char(i) != lit.get_char(i) {
            return false;
        }
        i = i + 1;
    }
    assert(s@ =~= lit@);
    true
}

/// A text that names no value of the type it was read as.
#[derive(Clone, Copy, Debug, PartialEq, Eq, Structural)]
pub struct ParseError;

/// Whether a message is formatted as HTML.
#[derive(Clone, Copy, Debug, PartialEq, Eq, Structural)]
pub enum HTML {
    /// Plain text (default).
    Plain,
    /// HTML.
    HTML,
}

/// The code that the notification service expects for a value.
pub open spec fn html_code(v: HTML) -> Seq<char> {
    match v {
        HTML::Plain => "0"@,
        HTML::HTML => "1"@,
    }
}

/// Whether `s` names the value, by its code or by its word.
pub open spec fn html_named(v: HTML, s: Seq<char>) -> bool {
    match v {
        HTML::Plain => s == "0"@ || s == "plain"@,
        HTML::HTML => s == "1"@ || s == "html"@,
    }
}

impl HTML {
    /// The code of the value.
    pub fn to_string(&self) -> (r: String)
        ensures
            r@ == html_code(*self),
    {
        match self {
            HTML::Plain => String::from_str("0"),
            HTML::HTML => String::from_str("1"),
        }
    }

    /// Reads a value from its code or its word.
    pub fn from_str(s: &str) -> (r: Result<HTML, ParseError>)
        ensures
            r matches Ok(v) ==> html_named(v, s@),
            r is Err ==> forall|v: HTML| !html_named(v, s@),
    {
        if text_is(s, "0") || text_is(s, "plain") {
            return Ok(HTML::Plain);
        }
        if text_is(s, "1") || text_is(s, "html") {
            return Ok(HTML::HTML);
        }
        Err(ParseError)
    }
}

/// Whether a message is shown in a monospace font.
#[derive(Clone, Copy, Debug, PartialEq, Eq, Structural)]
pub enum Monospace {
    /// Normal (default).
    Normal,
    /// Monospace.
    Monospace,
}

/// The code that the notification service expects for a value.
pub open spec fn monospace_code(v: Monospace) -> Seq<char> {
    match v {
        Monospace::Normal => "0"@,
        Monospace::Monospace => "1"@,
    }
}

/// Whether `s` names the value, by its code or by its word.
pub open spec fn monospace_named(v: Monospace, s: Seq<char>) -> bool {
    match v {
        Monospace::Normal => s == "0"@ || s == "normal"@,
        Monospace::Monospace => s == "1"@ || s == "monospace"@,
    }
}

impl Monospace {
    /// The code of the value.
    pub fn to_string(&self) -> (r: String)
        ensures
            r@ == monospace_code(*self),
    {
        match self {
            Monospace::Normal => String::from_str("0"),
            Monospace::Monospace => String::from_str("1"),
        }
    }

    /// Reads a value from its code or its word.
    pub fn from_str(s: &str) -> (r: Result<Monospace, ParseError>)
        ensures
            r matches Ok(v) ==> monospace_named(v, s@),
            r is Err ==> forall|v: Monospace| !monospace_named(v, s@),
    {
        if text_is(s, "0") || text_is(s, "normal") {
            return Ok(Monospace::Normal);
        }
        if text_is(s, "1") || text_is(s, "monospace") {
            return Ok(Monospace::Monospace);
        }
        Err(ParseError)
    }
}

/// How a message is presented to the user.
#[derive(Clone, Copy, Debug, PartialEq, Eq, Structural)]
pub enum Priority {
    /// Normal (default).
    Normal,
    /// Lowest.
    Lowest,
    /// Low.
    Low,
    /// High.
    High,
    /// Emergency.
    Emergency,
}

/// The code that the notification service expects for a value.
pub open spec fn priority_code(v: Priority) -> Seq<char> {
    match v {
        Priority::Normal => "0"@,
        Priority::Lowest => "-2"@,
        Priority::Low => "-1"@,
        Priority::High => "1"@,
        Priority::Emergency => "2"@,
    }
}

/// Whether `s` names the value, by its code or by its word.
pub open spec fn priority_named(v: Priority, s: Seq<char>) -> bool {
    match v {
        Priority::Normal => s == "0"@ || s == "normal"@,
        Priority::Lowest => s == "-2"@ || s == "lowest"@,
        Priority::Low => s == "-1"@ || s == "low"@,
        Priority::High => s == "1"@ || s == "high"@,
        Priority::Emergency => s == "2"@ || s == "emergency"@,
    }
}

impl Priority {
    /// The code of the value.
    pub fn to_string(&self) -> (r: String)
        ensures
            r@ == priority_code(*self),
    {
        match self {
            Priority::Normal => String::from_str("0"),
            Priority::Lowest => String::from_str("-2"),
            Priority::Low => String::from_str("-1"),
            Priority::High => String::from_str("1"),
            Priority::Emergency => String::from_str("2"),
        }
    }

    /// Reads a value from its code or its word.
    pub fn from_str(s: &str) -> (r: Result<Priority, ParseError>)
        ensures
            r matches Ok(v) ==> priority_named(v, s@),
            r is Err ==> forall|v: Priority| !priority_named(v, s@),
    {
        if text_is(s, "0") || text_is(s, "normal") {
            return Ok(Priority::Normal);
        }
        if text_is(s, "-2") || text_is(s, "lowest") {
            return Ok(Priority::Lowest);
        }
        if text_is(s, "-1") || text_is(s, "low") {
            return Ok(Priority::Low);
        }
        if text_is(s, "1") || text_is(s, "high") {
            return Ok(Priority::High);
        }
        if text_is(s, "2") || text_is(s, "emergency") {
            return Ok(Priority::Emergency);
        }
        Err(ParseError)
    }
}

/// The sound played when a notification arrives.
#[derive(Clone, Copy, Debug, PartialEq, Eq, Structural)]
pub enum Sound {
    /// pushover - Pushover (default)
    Pushover,
    /// bike - Bike
    Bike,
    /// bugle - Bugle
    Bugle,
    /// cashregister - Cash Register
    CashRegister,
    /// classical - Classical
    Classical,
    /// cosmic - Cosmic
    Cosmic,
    /// falling - Falling
    Falling,
    /// gamelan - Gamelan
    GameLan,
    /// incoming - Incoming
    Incoming,
    /// intermission - Intermission
    Intermission,
    /// magic - Magic
    Magic,
    /// mechanical - Mechanical
    Mechanical,
    /// pianobar - Piano Bar
    PianoBar,
    /// siren - Siren
    Siren,
    /// spacealarm - Space Alarm
    SpaceAlarm,
    /// tugboat - Tug Boat
    Tugboat,
    /// alien - Alien Alarm (long)
    Alien,
    /// climb - Climb (long)
    Climb,
    /// persistent - Persistent (long)
    Persistent,
    /// echo - Pushover Echo (long)
    Echo,
    /// updown - Up Down (long)
    UpDown,
    /// vibrate - Vibrate Only
    Vibrate,
    /// none - None (silent)
    Silent,
}

/// The name of a sound, as the notification service knows it.
pub open spec fn sound_name(v: Sound) -> Seq<char> {
    match v {
        Sound::Pushover => "pushover"@,
        Sound::Bike => "bike"@,
        Sound::Bugle => "bugle"@,
        Sound::CashRegister => "cashregister"@,
        Sound::Classical => "classical"@,
        Sound::Cosmic => "cosmic"@,
        Sound::Falling => "falling"@,
        Sound::GameLan => "gamelan"@,
        Sound::Incoming => "incoming"@,
        Sound::Intermission => "intermission"@,
        Sound::Magic => "magic"@,
        Sound::Mechanical => "mechanical"@,
        Sound::PianoBar => "pianobar"@,
        Sound::Siren => "siren"@,
        Sound::SpaceAlarm => "spacealarm"@,
        Sound::Tugboat => "tugboat"@,
        Sound::Alien => "alien"@,
        Sound::Climb => "climb"@,
        Sound::Persistent => "persistent"@,
        Sound::Echo => "echo"@,
        Sound::UpDown => "updown"@,
        Sound::Vibrate => "vibrate"@,
        Sound::Silent => "none"@,
    }
}

impl Sound {
    /// The name of the sound.
    pub fn to_string(&self) -> (r: String)
        ensures
            r@ == sound_name(*self),
    {
        match self {
            Sound::Pushover => String::from_str("pushover"),
            Sound::Bike => String::from_str("bike"),
            Sound::Bugle => String::from_str("bugle"),
            Sound::CashRegister => String::from_str("cashregister"),
            Sound::Classical => String::from_str("classical"),
            Sound::Cosmic => String::from_str("cosmic"),
            Sound::Falling => String::from_str("falling"),
            Sound::GameLan => String::from_str("gamelan"),
            Sound::Incoming => String::from_str("incoming"),
            Sound::Intermission => String::from_str("intermission"),
            Sound::Magic => String::from_str("magic"),
            Sound::Mechanical => String::from_str("mechanical"),
            Sound::PianoBar => String::from_str("pianobar"),
            Sound::Siren => String::from_str("siren"),
            Sound::SpaceAlarm => String::from_str("spacealarm"),
            Sound::Tugboat => String::from_str("tugboat"),
            Sound::Alien => String::from_str("alien"),
            Sound::Climb => String::from_str("climb"),
            Sound::Persistent => String::from_str("persistent"),
            Sound::Echo => String::from_str("echo"),
            Sound::UpDown => String::from_str("updown"),
            Sound::Vibrate => String::from_str("vibrate"),
            Sound::Silent => String::from_str("none"),
        }
    }

    /// Reads a sound from its name.
    pub fn from_str(s: &str) -> (r: Result<Sound, ParseError>)
        ensures
            r matches Ok(v) ==> sound_name(v) == s@,
            r is Err ==> forall|v: Sound| sound_name(v) != s@,
    {
        if text_is(s, "pushover") {
            return Ok(Sound::Pushover);
        }
        if text_is(s, "bike") {
            return Ok(Sound::Bike);
        }
        if text_is(s, "bugle") {
            return Ok(Sound::Bugle);
        }
        if text_is(s, "cashregister") {
            return Ok(Sound::CashRegister);
        }
        if text_is(s, "classical") {
            return Ok(Sound::Classical);
        }
        if text_is(s, "cosmic") {
            return Ok(Sound::Cosmic);
        }
        if text_is(s, "falling") {
            return Ok(Sound::Falling);
        }
        if text_is(s, "gamelan") {
            return Ok(Sound::GameLan);
        }
        if text_is(s, "incoming") {
            return Ok(Sound::Incoming);
        }
        if text_is(s, "intermission") {
            return Ok(Sound::Intermission);
        }
        if text_is(s, "magic") {
            return Ok(Sound::Magic);
        }
        if text_is(s, "mechanical") {
            return Ok(Sound::Mechanical);
        }
        if text_is(s, "pianobar") {
            return Ok(Sound::PianoBar);
        }
        if text_is(s, "siren") {
            return Ok(Sound::Siren);
        }
        if text_is(s, "spacealarm") {
            return Ok(Sound::SpaceAlarm);
        }
        if text_is(s, "tugboat") {
            return Ok(Sound::Tugboat);
        }
        if text_is(s, "alien") {
            return Ok(Sound::Alien);
        }
        if text_is(s, "climb") {
            return Ok(Sound::Climb);
        }
        if text_is(s, "persistent") {
            return Ok(Sound::Persistent);
        }
        if text_is(s, "echo") {
            return Ok(Sound::Echo);
        }
        if text_is(s, "updown") {
            return Ok(Sound::UpDown);
        }
        if text_is(s, "vibrate") {
            return Ok(Sound::Vibrate);
        }
        if text_is(s, "none") {
            return Ok(Sound::Silent);
        }
        Err(ParseError)
    }
}

/// A notification request as the service's form takes it.
#[derive(Clone, Debug, Default)]
pub struct Request {
    pub token: String,
    pub user: String,
    pub device: Option<String>,
    pub title: Option<String>,
    pub message: String,
    pub html: Option<u8>,
    pub timestamp: Option<u64>,
    pub priority: Option<u8>,
    pub url: Option<String>,
    pub url_title: Option<String>,
    pub sound: Option<String>,
}

/// The service's answer: status 1 on success, a request token, and the
/// invalid parameters, if any.
#[derive(Clone, Debug)]
pub struct Response {
    pub status: u8,
    pub request: String,
    pub errors: Option<Vec<String>>,
}

} // verus!
