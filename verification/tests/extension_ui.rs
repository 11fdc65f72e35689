use pi_interactive::extension_ui::{
    chosen_value, format_extension_ui_prompt, match_option, option_keys, parse_confirmation,
    parse_extension_ui_response, parse_selection, ExtensionUiRequest, ExtensionUiResponse,
    OptionKeys,
};
use pi_interactive::json::{Number, Value};

fn text(s: &str) -> Value {
    Value::String(s.to_string())
}

fn object(members: Vec<(&str, Value)>) -> Value {
    Value::Object(members.into_iter().map(|(k, v)| (k.to_string(), v)).collect())
}

fn request(method: &str, members: Vec<(&str, Value)>) -> ExtensionUiRequest {
    ExtensionUiRequest::new("req-1", method, object(members))
}

fn select(options: Vec<Value>) -> ExtensionUiRequest {
    request("select", vec![("title", text("Pick")), ("options", Value::Array(options))])
}

fn answered(value: Option<Value>) -> Result<ExtensionUiResponse, String> {
    Ok(ExtensionUiResponse { id: "req-1".to_string(), value, cancelled: false })
}

const INVALID_SELECTION: &str = "Invalid selection. Enter a number, label, or 'cancel'.";
const INVALID_CONFIRMATION: &str = "Invalid confirmation. Enter yes/no, or 'cancel'.";

#[test]
fn extension_ui_select_accepts_string_options() {
    let request = request(
        "select",
        vec![
            ("title", text("Pick a color")),
            ("options", Value::Array(vec![text("red"), text("green"), text("blue")])),
        ],
    );

    let prompt = format_extension_ui_prompt(&request);
    assert!(prompt.contains("1) red"));
    assert!(prompt.contains("2) green"));
    assert!(prompt.contains("3) blue"));

    let response = parse_extension_ui_response(&request, "2").expect("parse selection");
    assert_eq!(response.value, Some(text("green")));

    let response = parse_extension_ui_response(&request, "red").expect("parse selection");
    assert_eq!(response.value, Some(text("red")));
}

#[test]
fn extension_ui_select_accepts_object_options() {
    let request = select(vec![
        object(vec![("label", text("A")), ("value", text("alpha"))]),
        object(vec![("label", text("B"))]),
    ]);

    let response = parse_extension_ui_response(&request, "1").expect("parse selection");
    assert_eq!(response.value, Some(text("alpha")));

    let response = parse_extension_ui_response(&request, "B").expect("parse selection");
    assert_eq!(response.value, Some(text("B")));
}

#[test]
fn extension_ui_confirm_prompt_format() {
    let request = request("confirm", vec![("title", text("Proceed?"))]);
    let prompt = format_extension_ui_prompt(&request);
    assert!(prompt.contains("Proceed?"));
}

#[test]
fn extension_ui_confirm_yes() {
    let request = request("confirm", vec![("title", text("Proceed?"))]);
    let response = parse_extension_ui_response(&request, "yes").unwrap();
    assert_eq!(response.value, Some(Value::Bool(true)));
}

#[test]
fn extension_ui_confirm_no() {
    let request = request("confirm", vec![("title", text("Proceed?"))]);
    let response = parse_extension_ui_response(&request, "no").unwrap();
    assert_eq!(response.value, Some(Value::Bool(false)));
}

#[test]
fn extension_ui_input_response() {
    let request = request("input", vec![("title", text("Enter name:"))]);
    let response = parse_extension_ui_response(&request, "Alice").unwrap();
    assert_eq!(response.value, Some(text("Alice")));
}

#[test]
fn extension_ui_select_by_label_text() {
    let request = select(vec![text("alpha"), text("beta"), text("gamma")]);
    let response = parse_extension_ui_response(&request, "beta").unwrap();
    assert_eq!(response.value, Some(text("beta")));
}

#[test]
fn prompts_of_every_method() {
    let payload = || vec![("title", text("T")), ("message", text("M"))];
    let mut asked = request("confirm", payload());
    assert_eq!(
        format_extension_ui_prompt(&asked),
        "[unknown] confirm: T\nM\n\nEnter yes/no, or 'cancel'."
    );
    asked.extension_id = Some("ext".to_string());
    asked.method = "input".to_string();
    assert_eq!(format_extension_ui_prompt(&asked), "[ext] input: T\nM");
    asked.method = "editor".to_string();
    assert_eq!(format_extension_ui_prompt(&asked), "[ext] editor: T\nM");
    asked.method = "notify".to_string();
    assert_eq!(format_extension_ui_prompt(&asked), "[ext] T M");
}

#[test]
fn prompt_defaults_without_a_payload() {
    let asked = ExtensionUiRequest::new("req-1", "input", Value::Null);
    assert_eq!(format_extension_ui_prompt(&asked), "[unknown] input: Extension\n");
}

#[test]
fn prompt_names_the_extension_of_the_payload() {
    let asked = request("input", vec![("title", text("T")), ("extension_id", text("named"))]);
    assert_eq!(format_extension_ui_prompt(&asked), "[named] input: T\n");
    let mut known = request("input", vec![("title", text("T")), ("extension_id", text("named"))]);
    known.extension_id = Some("known".to_string());
    assert!(format_extension_ui_prompt(&known).starts_with("[known]"));
}

#[test]
fn select_prompt_lists_labels_values_and_texts() {
    let asked = request(
        "select",
        vec![
            ("title", text("Pick")),
            ("message", text("Carefully")),
            (
                "options",
                Value::Array(vec![
                    object(vec![("label", text("A")), ("value", text("alpha"))]),
                    object(vec![("value", text("beta"))]),
                    text("gamma"),
                    Value::Number(Number::PosInt(4)),
                ]),
            ),
        ],
    );
    assert_eq!(
        format_extension_ui_prompt(&asked),
        "[unknown] select: Pick\nCarefully\n  1) A\n  2) beta\n  3) gamma\n  4) \n\nEnter a number, label, or 'cancel'."
    );
}

#[test]
fn select_prompt_leaves_a_blank_message_out() {
    let asked = request("select", vec![("title", text("Pick")), ("message", text(" \t\u{3000}"))]);
    assert_eq!(
        format_extension_ui_prompt(&asked),
        "[unknown] select: Pick\n\nEnter a number, label, or 'cancel'."
    );
}

#[test]
fn select_prompt_numbers_go_past_nine() {
    let options: Vec<Value> = (0..12).map(|i| text(&format!("o{i}"))).collect();
    let prompt = format_extension_ui_prompt(&select(options));
    assert!(prompt.contains("\n  10) o9\n  11) o10\n  12) o11\n"));
}

#[test]
fn every_dialog_can_be_cancelled() {
    for method in ["confirm", "select", "input", "editor", "other"] {
        for input in ["cancel", "c", "CANCEL", "C", "  Cancel \n"] {
            let response = parse_extension_ui_response(&request(method, vec![]), input);
            assert_eq!(
                response,
                Ok(ExtensionUiResponse {
                    id: "req-1".to_string(),
                    value: None,
                    cancelled: true
                })
            );
        }
    }
}

#[test]
fn confirmation_words() {
    let asked = request("confirm", vec![]);
    for input in ["y", "yes", "true", "1", "YES", " Yes "] {
        assert_eq!(parse_extension_ui_response(&asked, input), answered(Some(Value::Bool(true))));
    }
    for input in ["n", "no", "false", "0", "No", "\tFALSE"] {
        assert_eq!(parse_extension_ui_response(&asked, input), answered(Some(Value::Bool(false))));
    }
    for input in ["", "maybe", "ye s", "2"] {
        assert_eq!(
            parse_extension_ui_response(&asked, input),
            Err(INVALID_CONFIRMATION.to_string())
        );
    }
    assert_eq!(parse_confirmation("yes"), Some(true));
    assert_eq!(parse_confirmation("0"), Some(false));
    assert_eq!(parse_confirmation("YES"), None);
}

#[test]
fn free_text_keeps_its_white_space() {
    let asked = request("editor", vec![]);
    assert_eq!(
        parse_extension_ui_response(&asked, "  two\nlines "),
        answered(Some(text("  two\nlines ")))
    );
}

#[test]
fn selection_by_number() {
    let asked = select(vec![
        object(vec![("label", text("A")), ("value", Value::Null)]),
        object(vec![("label", Value::Bool(true))]),
        text("three"),
        Value::Number(Number::NegInt(-4)),
    ]);
    assert_eq!(parse_extension_ui_response(&asked, "1"), answered(Some(Value::Null)));
    assert_eq!(parse_extension_ui_response(&asked, "+2"), answered(Some(Value::Bool(true))));
    assert_eq!(parse_extension_ui_response(&asked, " 003 "), answered(Some(text("three"))));
    assert_eq!(parse_extension_ui_response(&asked, "4"), answered(None));
    for input in ["0", "5", "-1", "1.0", "99999999999999999999999", "+", ""] {
        assert_eq!(
            parse_extension_ui_response(&asked, input),
            Err(INVALID_SELECTION.to_string())
        );
    }
}

#[test]
fn a_number_out_of_range_can_still_be_a_label() {
    let asked = select(vec![text("7"), text("1")]);
    assert_eq!(parse_extension_ui_response(&asked, "7"), answered(Some(text("7"))));
    assert_eq!(parse_extension_ui_response(&asked, "1"), answered(Some(text("7"))));
}

#[test]
fn selection_by_text_ignores_case() {
    let asked = select(vec![
        object(vec![("label", text("\u{c4}pfel")), ("value", Value::Number(Number::PosInt(1)))]),
        object(vec![("label", text("")), ("value", text("Birnen"))]),
        text("STRASSE"),
    ]);
    assert_eq!(
        parse_extension_ui_response(&asked, "\u{e4}PFEL"),
        answered(Some(Value::Number(Number::PosInt(1))))
    );
    assert_eq!(parse_extension_ui_response(&asked, "birnen"), answered(Some(text("Birnen"))));
    assert_eq!(parse_extension_ui_response(&asked, "strasse"), answered(Some(text("STRASSE"))));
    assert_eq!(
        parse_extension_ui_response(&asked, "kirschen"),
        Err(INVALID_SELECTION.to_string())
    );
}

#[test]
fn first_matching_option_is_chosen() {
    let asked = select(vec![
        object(vec![("label", text("x")), ("value", text("same"))]),
        object(vec![("label", text("same")), ("value", text("second"))]),
        text("same"),
    ]);
    assert_eq!(parse_extension_ui_response(&asked, "SAME"), answered(Some(text("same"))));
}

#[test]
fn listed_numbers_and_labels_are_accepted() {
    let options = vec![
        object(vec![("label", text("A")), ("value", text("alpha"))]),
        object(vec![("value", text("beta"))]),
        text("gamma"),
    ];
    let values = ["alpha", "beta", "gamma"];
    let labels = ["A", "beta", "gamma"];
    let asked = select(options);
    let prompt = format_extension_ui_prompt(&asked);
    for k in 0..3 {
        assert!(prompt.contains(&format!("  {}) {}\n", k + 1, labels[k])));
        for typed in [format!("{}", k + 1), labels[k].to_string()] {
            assert_eq!(
                parse_extension_ui_response(&asked, &typed),
                answered(Some(text(values[k])))
            );
        }
    }
}

#[test]
fn selection_without_options_is_refused() {
    for payload in [Value::Null, object(vec![("options", text("none"))])] {
        let asked = ExtensionUiRequest::new("req-1", "select", payload);
        assert_eq!(parse_extension_ui_response(&asked, "1"), Err(INVALID_SELECTION.to_string()));
    }
}

#[test]
fn keys_of_options() {
    let option = object(vec![("label", text("La")), ("value", text("Va"))]);
    let keys = option_keys(&option);
    assert_eq!(
        keys,
        OptionKeys {
            text: None,
            label: Some("la".to_string()),
            value: Some("va".to_string())
        }
    );
    assert_eq!(match_option(&option, &keys, "la"), Some(text("Va")));
    assert_eq!(match_option(&option, &keys, "va"), Some(text("Va")));
    assert_eq!(match_option(&option, &keys, "La"), None);
    assert_eq!(chosen_value(&option), Some(text("Va")));
    assert_eq!(
        parse_selection(&vec![option], &vec![keys], "nothing", "nothing"),
        None
    );
}

#[test]
fn the_first_member_of_a_name_counts() {
    let value = object(vec![("a", Value::Bool(true)), ("b", Value::Null), ("a", text("late"))]);
    assert_eq!(value.get("a"), Some(&Value::Bool(true)));
    assert_eq!(value.get("c"), None);
    assert_eq!(text("a").get("a"), None);
    assert_eq!(value.clone(), value);
}

#[test]
fn label_chooses_as_its_number() {
    let request = select(vec![
        object(vec![("label", text("Alpha")), ("value", Value::Bool(true))]),
        object(vec![("label", text("Beta"))]),
        object(vec![("value", text("gamma"))]),
        text("delta"),
    ]);
    for (number, label) in [("1", "Alpha"), ("2", "Beta"), ("3", "gamma"), ("4", "delta")] {
        let by_number = parse_extension_ui_response(&request, number);
        assert!(by_number.is_ok());
        assert_eq!(parse_extension_ui_response(&request, label), by_number, "{label}");
    }
    // An earlier option with the same key wins over the option that shows the label.
    let request = select(vec![
        object(vec![("label", text("One")), ("value", text("x"))]),
        object(vec![("label", text("X")), ("value", text("y"))]),
    ]);
    assert_eq!(parse_extension_ui_response(&request, "X"), answered(Some(text("x"))));
    assert_eq!(parse_extension_ui_response(&request, "2"), answered(Some(text("y"))));
}

#[test]
fn case_of_an_answer_does_not_matter() {
    let confirm = request("confirm", vec![]);
    let select = select(vec![text("Alpha"), text("Beta")]);
    for (one, other) in [("YES", "yes"), ("nO", "No"), (" CANCEL ", " cancel "), ("ALPHA", "alpha")] {
        for request in [&confirm, &select] {
            assert_eq!(
                parse_extension_ui_response(request, one),
                parse_extension_ui_response(request, other)
            );
        }
    }
}
