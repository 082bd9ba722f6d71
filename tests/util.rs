use term_mux::util::{resolve_shell, FromLibcResult};

#[test]
fn to_result_on_c_int() {
    let result = -1;
    assert_eq!(Err(()), result.to_result());

    let result = 42;
    assert_eq!(Ok(42), result.to_result());
}

#[test]
fn to_result_keeps_other_negative_values() {
    let result: i32 = -2;
    assert_eq!(Ok(-2), result.to_result());
    let result: i32 = 0;
    assert_eq!(Ok(0), result.to_result());
}

#[test]
fn shell_from_environment_comes_first() {
    assert_eq!(
        resolve_shell(Some("/bin/zsh".to_string()), Some("/bin/bash".to_string())),
        "/bin/zsh"
    );
}

#[test]
fn shell_from_user_database_comes_next() {
    assert_eq!(resolve_shell(None, Some("/bin/bash".to_string())), "/bin/bash");
}

#[test]
fn shell_falls_back_to_sh() {
    assert_eq!(resolve_shell(None, None), "/bin/sh");
}

trait TestTrait {
    fn func_1(&mut self, number: i32);
    fn func_2(&mut self, string: String);
}

/// Records the calls it gets, in order.
#[derive(Default)]
struct TestTraitMock {
    calls: Vec<String>,
}

impl TestTrait for TestTraitMock {
    fn func_1(&mut self, number: i32) {
        self.calls.push(format!("func_1({})", number));
    }

    fn func_2(&mut self, string: String) {
        self.calls.push(format!("func_2({})", string));
    }
}

fn calls_trait_functions<T: TestTrait>(test_trait: &mut T) {
    test_trait.func_1(42);
    test_trait.func_2("pony".to_string());
}

#[test]
fn assert_macro_succeeds_when_functions_called() {
    let mut mock = TestTraitMock::default();
    calls_trait_functions(&mut mock);
    assert_eq!(mock.calls, vec![format!("func_1({})", 42), format!("func_2({})", "pony".to_string())]);
}
