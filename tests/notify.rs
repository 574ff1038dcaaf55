use cdu::notify::{Monospace, ParseError, Priority, Sound, HTML};

#[test]
fn t_html() -> Result<(), ParseError> {
    assert_eq!("0", HTML::Plain.to_string());
    assert_eq!(HTML::Plain, HTML::from_str("0")?);
    assert_eq!(HTML::Plain, HTML::from_str("plain")?);
    assert_eq!("1", HTML::HTML.to_string());
    assert_eq!(HTML::HTML, HTML::from_str("1")?);
    assert_eq!(HTML::HTML, HTML::from_str("html")?);
    Ok(())
}

#[test]
fn t_monospace() -> Result<(), ParseError> {
    assert_eq!("0", Monospace::Normal.to_string());
    assert_eq!(Monospace::Normal, Monospace::from_str("0")?);
    assert_eq!(Monospace::Normal, Monospace::from_str("normal")?);
    assert_eq!("1", Monospace::Monospace.to_string());
    assert_eq!(Monospace::Monospace, Monospace::from_str("1")?);
    assert_eq!(Monospace::Monospace, Monospace::from_str("monospace")?);
    Ok(())
}

#[test]
fn t_priority() -> Result<(), ParseError> {
    assert_eq!("-2", Priority::Lowest.to_string());
    assert_eq!(Priority::Lowest, Priority::from_str("-2")?);
    assert_eq!(Priority::Lowest, Priority::from_str("lowest")?);
    assert_eq!("-1", Priority::Low.to_string());
    assert_eq!(Priority::Low, Priority::from_str("-1")?);
    assert_eq!(Priority::Low, Priority::from_str("low")?);
    assert_eq!("0", Priority::Normal.to_string());
    assert_eq!(Priority::Normal, Priority::from_str("0")?);
    assert_eq!(Priority::Normal, Priority::from_str("normal")?);
    assert_eq!("1", Priority::High.to_string());
    assert_eq!(Priority::High, Priority::from_str("1")?);
    assert_eq!(Priority::High, Priority::from_str("high")?);
    assert_eq!("2", Priority::Emergency.to_string());
    assert_eq!(Priority::Emergency, Priority::from_str("2")?);
    assert_eq!(Priority::Emergency, Priority::from_str("emergency")?);
    Ok(())
}

#[test]
fn t_sound() -> Result<(), ParseError> {
    assert_eq!("pushover", Sound::Pushover.to_string());
    assert_eq!(Sound::Pushover, Sound::from_str("pushover")?);
    assert_eq!("bike", Sound::Bike.to_string());
    assert_eq!(Sound::Bike, Sound::from_str("bike")?);
    assert_eq!("bugle", Sound::Bugle.to_string());
    assert_eq!(Sound::Bugle, Sound::from_str("bugle")?);
    assert_eq!("cashregister", Sound::CashRegister.to_string());
    assert_eq!(Sound::CashRegister, Sound::from_str("cashregister")?);
    assert_eq!("classical", Sound::Classical.to_string());
    assert_eq!(Sound::Classical, Sound::from_str("classical")?);
    assert_eq!("cosmic", Sound::Cosmic.to_string());
    assert_eq!(Sound::Cosmic, Sound::from_str("cosmic")?);
    assert_eq!("falling", Sound::Falling.to_string());
    assert_eq!(Sound::Falling, Sound::from_str("falling")?);
    assert_eq!("gamelan", Sound::GameLan.to_string());
    assert_eq!(Sound::GameLan, Sound::from_str("gamelan")?);
    assert_eq!("incoming", Sound::Incoming.to_string());
    assert_eq!(Sound::Incoming, Sound::from_str("incoming")?);
    assert_eq!("intermission", Sound::Intermission.to_string());
    assert_eq!(Sound::Intermission, Sound::from_str("intermission")?);
    assert_eq!("magic", Sound::Magic.to_string());
    assert_eq!(Sound::Magic, Sound::from_str("magic")?);
    assert_eq!("mechanical", Sound::Mechanical.to_string());
    assert_eq!(Sound::Mechanical, Sound::from_str("mechanical")?);
    assert_eq!("pianobar", Sound::PianoBar.to_string());
    assert_eq!(Sound::PianoBar, Sound::from_str("pianobar")?);
    assert_eq!("siren", Sound::Siren.to_string());
    assert_eq!(Sound::Siren, Sound::from_str("siren")?);
    assert_eq!("spacealarm", Sound::SpaceAlarm.to_string());
    assert_eq!(Sound::SpaceAlarm, Sound::from_str("spacealarm")?);
    assert_eq!("tugboat", Sound::Tugboat.to_string());
    assert_eq!(Sound::Tugboat, Sound::from_str("tugboat")?);
    assert_eq!("alien", Sound::Alien.to_string());
    assert_eq!(Sound::Alien, Sound::from_str("alien")?);
    assert_eq!("climb", Sound::Climb.to_string());
    assert_eq!(Sound::Climb, Sound::from_str("climb")?);
    assert_eq!("persistent", Sound::Persistent.to_string());
    assert_eq!(Sound::Persistent, Sound::from_str("persistent")?);
    assert_eq!("echo", Sound::Echo.to_string());
    assert_eq!(Sound::Echo, Sound::from_str("echo")?);
    assert_eq!("updown", Sound::UpDown.to_string());
    assert_eq!(Sound::UpDown, Sound::from_str("updown")?);
    assert_eq!("vibrate", Sound::Vibrate.to_string());
    assert_eq!(Sound::Vibrate, Sound::from_str("vibrate")?);
    assert_eq!("none", Sound::Silent.to_string());
    assert_eq!(Sound::Silent, Sound::from_str("none")?);
    Ok(())
}

#[test]
fn unknown_words_are_refused() {
    assert_eq!(Err(ParseError), HTML::from_str("2"));
    assert_eq!(Err(ParseError), Monospace::from_str("Monospace"));
    assert_eq!(Err(ParseError), Priority::from_str("-3"));
    assert_eq!(Err(ParseError), Sound::from_str(""));
    assert_eq!(Err(ParseError), Sound::from_str("Bike"));
}
