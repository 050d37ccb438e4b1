use porecatu_ui::startup::{startup_directory, StartupDirectory};

#[test]
fn home_is_the_home_directory_and_anything_else_is_literal() {
    assert_eq!(startup_directory("home"), StartupDirectory::Home);
    assert_eq!(
        startup_directory("/srv/projetos"),
        StartupDirectory::Literal("/srv/projetos".to_owned())
    );
    assert_eq!(startup_directory("Home"), StartupDirectory::Literal("Home".to_owned()));
}
