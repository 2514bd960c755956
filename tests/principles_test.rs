use clean_code_notes_exercises::athletes::{Cyclist, Runner, RunnerOnly, SoccerPlayer, Swimmer, TeamSport, Triathlete};
use clean_code_notes_exercises::birds::{Bird, Eagle, FlyingBird, Penguin};
use clean_code_notes_exercises::databases::{App, Database, InMemoryDatabase, RemoteDatabase, SQLDatabase};
use clean_code_notes_exercises::members::Member;
use clean_code_notes_exercises::printers::{PDFPrinter, PagePrinter, Printer, WebPrinter};

#[test]
fn test_single_responsibility_principle() {
    let member_empty = Member::new("", "");
    assert_eq!(member_empty.login("test@test.com", "password"), false);
    let mut member = Member::new("test@test.com", "password");
    assert_eq!(
        member.signup("test@test.com", "password"),
        "Member test@test.com signed up"
    );
    assert_eq!(
        member.assign_role("admin"),
        "Member test@test.com assigned role admin"
    );
    assert_eq!(member.login("test@test.com", "password"), true);
}

#[test]
fn login_refuses_wrong_credentials() {
    let member = Member::new("a@b.c", "secret");
    assert!(!member.login("a@b.c", "other"));
    assert!(!member.login("x@b.c", "secret"));
    assert!(member.login("a@b.c", "secret"));
}

#[test]
fn test_open_closed_principle() {
    let web_printer = WebPrinter;
    assert_eq!(
        web_printer.print("Some data"),
        Ok("Web Printer Printing: Some data".to_string())
    );
    assert_eq!(web_printer.print(""), Err("Data is empty"));

    let pdf_printer = PDFPrinter;
    assert_eq!(
        pdf_printer.print("Some data"),
        Ok("PDF Printer Printing: Some data".to_string())
    );
    assert_eq!(pdf_printer.print(""), Err("Data is empty"));

    let page_printer = PagePrinter;
    assert_eq!(
        page_printer.print("Some data"),
        Ok("Page Printer Printing: Some data".to_string())
    );
    assert_eq!(page_printer.print(""), Err("Data is empty"));
}

#[test]
fn test_liskov_substitution_principle() {
    let eagle = Eagle::new("Royal Eagle");
    assert_eq!(eagle.name(), "Royal Eagle");
    assert_eq!(eagle.fly(), "Flying...");
    assert_eq!(eagle.dive(), "Diving...");

    let penguin = Penguin::new("Emperor Penguin");
    assert_eq!(penguin.name(), "Emperor Penguin");
}

#[test]
fn test_interface_segregation_principle() {
    let thriatlete = Triathlete;
    assert_eq!(thriatlete.swim(), "Triathlete is swimming");
    assert_eq!(thriatlete.cycle(), "Triathlete is cycling");
    assert_eq!(thriatlete.run(), "Triathlete is running");

    let runner_only = RunnerOnly;
    assert_eq!(runner_only.run(), "Runner is running");

    let soccer_player = SoccerPlayer;
    assert_eq!(
        soccer_player.play_as_team(),
        "Soccer player is playing as part of a team"
    );
}

#[test]
fn test_dependency_inversion_principle() {
    let sql_database = SQLDatabase::new("http://localhost:8080");
    assert_eq!(sql_database.uri, "http://localhost:8080");
    assert_eq!(
        sql_database.connect(),
        "Connecting to database: http://localhost:8080"
    );
    assert_eq!(sql_database.store_data("Some data"), "Storing data: Some data");

    let in_memory_database = InMemoryDatabase;
    assert_eq!(in_memory_database.store_data("Some data"), "Storing data: Some data");
}

#[test]
fn app_saves_through_its_database() {
    let app = App::new(InMemoryDatabase);
    assert_eq!(app.save_settings(), "Storing data: Some data");
    let remote = App::new(SQLDatabase::new("db://x"));
    assert_eq!(remote.save_settings(), "Storing data: Some data");
    assert_eq!(remote.database.uri(), "db://x");
}
