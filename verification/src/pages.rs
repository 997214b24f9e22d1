//! The site's pages: the message of the day, the texts served as they are, and the blog.
use vstd::prelude::*;

use crate::net::IpAddress;
use crate::random::{choose_item, random_ratio, thread_rng};

verus! {

/// The messages of the day; one is picked at random as the title of each page.
pub const MOTD: [&'static str; 182] = [
    // ASCII AAAA in hexadecimal
    "0x41414141",
    // funny ibm bios error from clab retro video
    "48/00/1980",
    // personal ;)
    "21522",
    "5555",
    // unix time epoch
    "1970-01-01",
    // hp48 max real
    "9.99999999999E499",
    // some digits of pi
    "3.14159265",
    // kerbal green
    "0xbada55",
    // funny word/numbers
    "0xcafebabe",
    "8008135",
    "67",
    // x86 asm interrupt instruction
    "int3",
    // frequency of an A above middle C
    "440hz",
    // camera aperture
    "f/4",
    "SWING!",
    "WHO THE FUCK IS OCTAVE",
    // BMW engine
    "N52",
    "48kHz/24bit",
    "mls",
    "LO SIENTO",
    "WILSON",
    "so i went to the coinstar",
    "it didn't have any coins",
    "slam storage",
    "batabatabatabatabatabatabatabatabatabatabatabatabatabatabatabatabatabatabatabata",
    "tch... newgens...",
    "jamie paige is mid af",
    "all caps or no caps",
    // Marco Reps Fluke 8508A repair
    "-8.892098 kohm",
    "MUSTARRRRRDDDDD",
    "undefined",
    "Segmentation fault",
    // Marco Reps HP3458A repairathon
    "TEMP('C) -1583.1",
    "hello james. yes, YOU🫵",
    "Shit man, this beat league is fucked.",
    "let mut suvi: u64 = 0;",
    "143",
    "iPod mini",
    "HP 48G+",
    "E90",
    "4117537",
    "Half-Life: 4",
    "HAMMOOOONNNDDDD",
    "YOU'VE REVERSED INTO THE SPORTS LORRY",
    "2240620",
    "You're Unbeatable!",
    "vivid/stasis",
    "AAAAHHHHHHH I NEEEEEED A MEDIC BAG",
    "e^(pi * i) = -1",
    "30040",
    "M539",
    "FULL BRIDGE RECTIFIER",
    "🤼‍♀️",
    "I'm Quaving",
    "all hail boobs and beating off",
    "i'm so fucking TIIIIIRED",
    // memorized
    "eating is living",
    "you say the lines",
    "the syllables",
    "got it memorized so i can make it stop",
    "rest up! god im tired",
    // INVISIBLE
    "When you can't even say my name",
    "Finished `dev` profile [unoptimized + debuginfo] targets(s) in 0.69s",
    "Hey you, you're finally awake",
    "George Washington",
    "ZIG SILAS",
    "steamdeck",
    "calc is short for calculator",
    "titanfall was the best shooter",
    "the LEGO movie is amazing",
    "huge boob",
    "octave",
    "breast is good",
    "man door hand hook car door",
    "Stealy Wheely Automobiley",
    "One day you will be dead.",
    // Deep Rock Galactic
    "ROCK AND STONE",
    "WE'RE RICH",
    // Easy Delivery Company
    "Have an Easy day!",
    "A HIDEO KOJIMA PRODUCTION",
    "3 babies 1 minivan",
    "You just lost the game.",
    "CorrectHorseBatteryStaple",
    "The 15th Standard",
    // Japanese Symbol for Beginner.
    "🔰",
    // UNBEATABLE arcade titles
    "god dammed tired.",
    "memorizer",
    "featuring",
    // famous
    "DOOR STUCK DOOR STUCK",
    "PLEASE I BEG YOU",
    "PERFECT+31",
    "wiggle your fingers, jam the keys",
    "::<>",
    "5/8in",
    "K-POP!",
    "21",
    "how to quit vim?",
    "SCSI",
    "FORK FOUND IN KITCHEN",
    // famous CoD lines
    "THE NUMBERS MASON",
    "WHAT DO THEY MEAN",
    "Press F to Pay Respects",
    "Soap, what the hell kinda name is Soap?",
    "Turbofish",
    "Wayland is great",
    // VIN WMIs for BMW
    "WBA",
    "WBS",
    "3MW",
    "5UM",
    "4US",
    "KWebsiteTitle",
    "Kandalf",
    "KDE is amazing",
    "Sway rocks",
    "Gentoo",
    "eselect news read",
    "cargo run --release",
    "i also have to look up song lyrics",
    "take backwards crowbar of the right",
    "how to use git tutorial 2026 working",
    // ava
    "ava",
    // amazing mobile game ad
    "TheLegend27",
    "rating up! +0.000",
    // i wrote this before even making it to chapter 6 or doing encore
    "the best ragebait is vivid/stasis",
    // car tires are measured in such a dumb way
    "255/35R18",
    "hi bramble",
    // RFC april fools joke
    "HTCPCP",
    "HTCPCP-TEA",
    "quabubu",
    "beepo",
    "LETS GO GAMBLING",
    "99% of gamblers quit before the god run",
    "what if jfk shot back",
    "judge judy and executioner",
    "women🔥",
    // common one
    "crazy, i was crazy once",
    "they locked me in a room",
    "a rubber room with rats",
    "the rats made me crazy",
    // common one with changed text
    "quazy, i was quazy once",
    "they locked me in a room",
    "a room with quaverlings",
    "the quaverlings made me quazy",
    // UNBEATABLE is
    "Quaver",
    "Beat",
    "Treble",
    "Clef",
    "Rest",
    "and YOU",
    // some classics
    "SOI SOI SOI SOI",
    "nyancat",
    "man this audio is shit",
    "six seven",
    "im a dog meow meow",
    "🧲",
    "painting with dirt",
    "c418 - sweden",
    "Battle Tapes",
    // usedcvnt
    "the world doesn't care",
    "carbon fiber towels",
    "LIQUIMOLY",
    "window.location.href = \"/i/am/very/smart\"",
    "its some good schiit",
    // cd quality is damn good
    "44.1kHz/16bit is peak audio",
    // re-tuned
    "when i lose my mind",
    "will you help me find it",
    "or will you leave me to rot",
    // famous song
    "you know the rules",
    "and so do i",
    "never gonna give you up",
    // shhh
    "/i/am/very/smart",
    "Prepare for Titanfall",
    "dt770s are amazing",
    "RS-232",
    "its actually DE-9 and DB-25",
    "pipewire is magic",
    // Where Wayland got its name
    "Wayland, Massachusetts",
    // BMW engine
    "S65B40",
    "S62B50",
    // Ohio
    "Ohio",
    "ANYWHERE BUT OHIO",
    // ISO film speed is a combo of ASA and DIN but most just leave the DIN part out
    "ISO = ASA/DIN",
];

/// The errors that a page can answer with.
#[derive(Clone, Copy, Debug, PartialEq, Eq, Structural)]
pub enum ServerError {
    /// No message of the day could be picked.
    MotdUnavailable,
    /// The blog was asked for an absolute path.
    AbsoluteBlogPath,
    /// The blog post's Markdown could not be turned into HTML.
    MarkdownFailed,
}

impl ServerError {
    /// The HTTP status code of the error: 500 for each of them.
    pub fn status(&self) -> (s: u16)
        ensures
            s == 500,
    {
        500
    }

    /// The title that the error page shows.
    pub fn title(&self) -> (t: &'static str)
        ensures
            *self is MotdUnavailable ==> t@ == "Internal Server Error"@,
            *self is AbsoluteBlogPath ==> t@ == "Internal Error"@,
            *self is MarkdownFailed ==> t@ == "Internal Server Error"@,
    {
        match self {
            ServerError::MotdUnavailable => "Internal Server Error",
            ServerError::AbsoluteBlogPath => "Internal Error",
            ServerError::MarkdownFailed => "Internal Server Error",
        }
    }

    /// The detail that the error page shows, if any. The absolute-path error is a bare
    /// internal error whose message, `error`, is shown only where the site is set to expose
    /// error messages (`expose_errors`); the other errors always show their detail.
    pub fn detail(&self, expose_errors: bool) -> (d: Option<&'static str>)
        ensures
            *self is MotdUnavailable ==> (d matches Some(t) && t@
                == "motd machine broke ask again tomorrow"@),
            *self is AbsoluteBlogPath ==> (if expose_errors {
                d matches Some(t) && t@ == "error"@
            } else {
                d is None
            }),
            *self is MarkdownFailed ==> (d matches Some(t) && t@ == "Failed to render markdown"@),
    {
        match self {
            ServerError::MotdUnavailable => Some("motd machine broke ask again tomorrow"),
            ServerError::AbsoluteBlogPath => if expose_errors {
                Some("error")
            } else {
                None
            },
            ServerError::MarkdownFailed => Some("Failed to render markdown"),
        }
    }
}

/// A message of the day, picked at random; there always is one.
pub fn motd() -> (r: Result<&'static str, ServerError>)
    ensures
        r matches Ok(m) && MOTD@.contains(m),
{
    let mut rng = thread_rng();
    match choose_item(vstd::array::array_as_slice(&MOTD), &mut rng) {
        Some(m) => Ok(m),
        None => Err(ServerError::MotdUnavailable),
    }
}

/// The note shown on the front page to visitors who come over IPv6.
pub const IPV6_NOTE: &'static str = "you are connected over IPv6 and participating in the transition away from a fundamentally broken internet";

/// The hint shown on the front page to one visitor in twenty.
pub const SECRET_NOTE: &'static str = "something is at /i/am/very/smart";

/// The notes on the front page: the IPv6 note for visitors over IPv6, then the hint when
/// `lucky`.
pub open spec fn root_notes(ipv6: bool, lucky: bool) -> Seq<&'static str> {
    let first = if ipv6 { seq![IPV6_NOTE] } else { Seq::empty() };
    if lucky { first.push(SECRET_NOTE) } else { first }
}

/// The front page shows the IPv6 note exactly to visitors over IPv6 and the hint exactly when
/// the one-in-twenty draw came out lucky, each at most once, the IPv6 note first.
pub proof fn lemma_root_notes_shape(ipv6: bool, lucky: bool)
    ensures
        root_notes(ipv6, lucky).contains(IPV6_NOTE) <==> ipv6,
        root_notes(ipv6, lucky).contains(SECRET_NOTE) <==> lucky,
        root_notes(ipv6, lucky).len() == (if ipv6 { 1int } else { 0int }) + (if lucky {
            1int
        } else {
            0int
        }),
        ipv6 ==> root_notes(ipv6, lucky)[0] == IPV6_NOTE,
{
    reveal_strlit("you are connected over IPv6 and participating in the transition away from a fundamentally broken internet");
    reveal_strlit("something is at /i/am/very/smart");
    assert(IPV6_NOTE@.len() != SECRET_NOTE@.len());
    let n = root_notes(ipv6, lucky);
    if ipv6 && lucky {
        assert(n =~= seq![IPV6_NOTE, SECRET_NOTE]);
        assert(n[0] == IPV6_NOTE && n[1] == SECRET_NOTE);
    } else if ipv6 {
        assert(n =~= seq![IPV6_NOTE]);
        assert(n[0] == IPV6_NOTE);
    } else if lucky {
        assert(n =~= seq![SECRET_NOTE]);
        assert(n[0] == SECRET_NOTE);
    } else {
        assert(n =~= Seq::<&'static str>::empty());
    }
}

/// The notes on the front page for a visitor over IPv6 or not, and lucky or not.
pub fn root_messages_for(ipv6: bool, lucky: bool) -> (msgs: Vec<&'static str>)
    ensures
        msgs@ == root_notes(ipv6, lucky),
{
    let mut msgs: Vec<&'static str> = Vec::new();
    if ipv6 {
        msgs.push(IPV6_NOTE);
    }
    if lucky {
        msgs.push(SECRET_NOTE);
    }
    msgs
}

/// The notes on the front page for a visitor from `source`; whether the hint is shown is left
/// to chance, one time in twenty.
pub fn root_messages(source: IpAddress) -> (msgs: Vec<&'static str>)
    ensures
        msgs@ == root_notes(source is V6, true) || msgs@ == root_notes(source is V6, false),
{
    let mut rng = thread_rng();
    let lucky = random_ratio(&mut rng, 1, 20);
    root_messages_for(source.is_ipv6(), lucky)
}

/// The text of the car page under the message of the day `motd`.
pub fn car_text(motd: &str) -> (t: String)
    ensures
        t@ == motd@ + "\nunder construction, just use the back button"@,
{
    let mut t = String::from_str(motd);
    t.append("\nunder construction, just use the back button");
    t
}

/// The car page: a message of the day and a note that the page is under construction.
pub fn car() -> (r: Result<String, ServerError>)
    ensures
        r matches Ok(t) && exists|m: &'static str|
            MOTD@.contains(m) && t@ == m@ + "\nunder construction, just use the back button"@,
{
    let m = motd()?;
    Ok(car_text(m))
}

/// The text served at `/robots.txt`.
pub fn robots_txt() -> (text: &'static str)
    ensures
        text@ == "# if robot: beep boop beep beep boop\n# if human: hello there, please leave this is not your domain\nUser-agent: *\nDisallow: /\n"@,
{
    "# if robot: beep boop beep beep boop\n# if human: hello there, please leave this is not your domain\nUser-agent: *\nDisallow: /\n"
}

/// The Matrix homeserver that clients are sent to.
pub fn matrix_homeserver_base_url() -> (url: &'static str)
    ensures
        url@ == "https://matrix.aamaruvi.com"@,
{
    "https://matrix.aamaruvi.com"
}

/// The Matrix server that other homeservers federate with.
pub fn matrix_server_address() -> (addr: &'static str)
    ensures
        addr@ == "matrix.aamaruvi.com:443"@,
{
    "matrix.aamaruvi.com:443"
}

} // verus!
