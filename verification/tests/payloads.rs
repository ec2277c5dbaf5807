use taskmsg::channel::create;
use taskmsg::summary::{notify, Newspaper, Summary, Team};

#[test]
fn newspaper_summarizes_itself() {
    let newspaper = Newspaper {
        title: String::from("Huiyen Lampao"),
        editor: String::from("Hemanta"),
        id: 34,
    };
    assert_eq!(
        newspaper.summarize(),
        "title: Huiyen Lampao, editor: Hemanta, id: 34"
    );
}

#[test]
fn team_summarizes_itself() {
    let team = Team {
        name: String::from("Chennai Super Kings"),
        captain: String::from("MS Dhoni"),
        champion: true,
    };
    assert_eq!(
        team.summarize(),
        "name: Chennai Super Kings, captain MS Dhoni, champion true"
    );
}

#[test]
fn team_without_title_says_false() {
    let team = Team {
        name: String::from("Pune Warriors"),
        captain: String::from("Steve Smith"),
        champion: false,
    };
    assert_eq!(
        notify(&team),
        "name: Pune Warriors, captain Steve Smith, champion false"
    );
}

#[test]
fn issue_id_zero_renders_as_one_digit() {
    let newspaper = Newspaper {
        title: String::from("T"),
        editor: String::from("E"),
        id: 0,
    };
    assert_eq!(newspaper.summarize(), "title: T, editor: E, id: 0");
}

#[test]
fn issue_id_renders_every_digit() {
    let newspaper = Newspaper {
        title: String::from("T"),
        editor: String::from("E"),
        id: u32::MAX,
    };
    assert_eq!(newspaper.summarize(), "title: T, editor: E, id: 4294967295");
}

#[test]
fn notify_matches_summarize() {
    let newspaper = Newspaper {
        title: String::from("The Daily"),
        editor: String::from("Ed"),
        id: 1,
    };
    assert_eq!(notify(&newspaper), newspaper.summarize());
}

#[test]
fn notifications_travel_over_a_channel() {
    let (tx, rx) = create();
    let newspaper = Newspaper {
        title: String::from("Morning Post"),
        editor: String::from("Priya"),
        id: 7,
    };
    assert!(tx.send(notify(&newspaper)).is_ok());
    drop(tx);
    assert_eq!(
        rx.recv(),
        Ok(String::from("title: Morning Post, editor: Priya, id: 7"))
    );
}
