//! Dialogs that extensions ask the user for: the prompt that is shown, and the response that an
//! answer stands for.
use vstd::prelude::*;
use vstd::string::*;

use crate::json::{items_view, opt_json, Json, Value};
use crate::text::{
    ascii_lower, blank, decimal, eq_ignore_ascii_case, folds_ascii, lemma_ascii_lower_trims,
    law_blank_is_all_white_space, lemma_decimal_roundtrip, lemma_number_has_no_case,
    lemma_same_case_is_ascii, lemma_trimmed_is_ascii,
    lowercase, opt_chars, parse_usize, push_usize, same_text, to_lowercase, trim, trimmed,
    usize_of_text, white_space,
};

verus! {

broadcast use vstd::string::group_string_axioms;

/// A dialog that an extension asks for.
#[derive(Debug, PartialEq)]
pub struct ExtensionUiRequest {
    pub id: String,
    /// The kind of dialog: `confirm`, `select`, `input`, `editor`, or one of the extension's own.
    pub method: String,
    pub payload: Value,
    /// The extension that asks, where the host knows it.
    pub extension_id: Option<String>,
}

/// What the user answered.
#[derive(Debug, PartialEq)]
pub struct ExtensionUiResponse {
    /// The request that this answers.
    pub id: String,
    pub value: Option<Value>,
    pub cancelled: bool,
}

/// The model of a request.
pub struct UiRequest {
    pub id: Seq<char>,
    pub method: Seq<char>,
    pub payload: Json,
    pub extension_id: Option<Seq<char>>,
}

/// The model of a response.
pub struct UiResponse {
    pub id: Seq<char>,
    pub value: Option<Json>,
    pub cancelled: bool,
}

impl View for ExtensionUiRequest {
    type V = UiRequest;

    open spec fn view(&self) -> UiRequest {
        UiRequest {
            id: self.id@,
            method: self.method@,
            payload: self.payload@,
            extension_id: opt_chars(self.extension_id),
        }
    }
}

impl View for ExtensionUiResponse {
    type V = UiResponse;

    open spec fn view(&self) -> UiResponse {
        UiResponse { id: self.id@, value: opt_json(self.value), cancelled: self.cancelled }
    }
}

impl ExtensionUiRequest {
    /// A request whose extension is not known to the host.
    pub fn new(id: &str, method: &str, payload: Value) -> (r: ExtensionUiRequest)
        ensures
            r@ == (UiRequest {
                id: id@,
                method: method@,
                payload: payload@,
                extension_id: None,
            }),
    {
        ExtensionUiRequest {
            id: id.to_owned(),
            method: method.to_owned(),
            payload,
            extension_id: None,
        }
    }
}

// ---------------------------------------------------------------------------------------------
// Prompts
// ---------------------------------------------------------------------------------------------

impl UiRequest {
    /// The title of the dialog.
    pub open spec fn title(self) -> Seq<char> {
        match self.payload.get_str("title"@) {
            Some(title) => title,
            None => "Extension"@,
        }
    }

    /// The message below the title.
    pub open spec fn message(self) -> Seq<char> {
        match self.payload.get_str("message"@) {
            Some(message) => message,
            None => Seq::empty(),
        }
    }

    /// Who asks: the extension that the host knows, or else the one that the payload names.
    pub open spec fn provenance(self) -> Seq<char> {
        match self.extension_id {
            Some(id) => id,
            None => match self.payload.get_str("extension_id"@) {
                Some(id) => id,
                None => "unknown"@,
            },
        }
    }

    /// The options of a selection, where the payload has a list of them.
    pub open spec fn options(self) -> Option<Seq<Json>> {
        match self.payload.get("options"@) {
            Some(options) => options.as_array(),
            None => None,
        }
    }
}

/// The text that stands for an option: its label, or else its value, or else the option itself,
/// whichever is a text first.
pub open spec fn option_label(option: Json) -> Seq<char> {
    match option.get_str("label"@) {
        Some(label) => label,
        None => match option.get_str("value"@) {
            Some(value) => value,
            None => match option.as_str() {
                Some(text) => text,
                None => Seq::empty(),
            },
        },
    }
}

/// One line per option: its number, counted from one, and its label.
pub open spec fn option_lines(options: Seq<Json>) -> Seq<char>
    decreases options.len(),
{
    if options.len() == 0 {
        Seq::empty()
    } else {
        option_lines(options.drop_last()) + "  "@ + decimal(options.len()) + ") "@ + option_label(
            options.last(),
        ) + "\n"@
    }
}

/// The prompt of a selection.
pub open spec fn select_prompt(request: UiRequest) -> Seq<char> {
    let options = match request.options() {
        Some(options) => options,
        None => Seq::empty(),
    };
    let head = "["@ + request.provenance() + "] select: "@ + request.title() + "\n"@;
    let message = if blank(request.message()) {
        Seq::empty()
    } else {
        request.message() + "\n"@
    };
    head + message + option_lines(options) + "\nEnter a number, label, or 'cancel'."@
}

/// The prompt of a dialog.
pub open spec fn prompt_text(request: UiRequest) -> Seq<char> {
    let who = "["@ + request.provenance();
    if request.method == "confirm"@ {
        who + "] confirm: "@ + request.title() + "\n"@ + request.message()
            + "\n\nEnter yes/no, or 'cancel'."@
    } else if request.method == "select"@ {
        select_prompt(request)
    } else if request.method == "input"@ {
        who + "] input: "@ + request.title() + "\n"@ + request.message()
    } else if request.method == "editor"@ {
        who + "] editor: "@ + request.title() + "\n"@ + request.message()
    } else {
        who + "] "@ + request.title() + " "@ + request.message()
    }
}

/// Appends the numbered line of every option.
fn push_option_lines(out: &mut String, options: &Vec<Value>)
    ensures
        final(out)@ == old(out)@ + option_lines(items_view(options@)),
{
    let ghost model = items_view(options@);
    let ghost start = out@;
    let mut i: usize = 0;
    assert(out@ =~= start + option_lines(model.take(0)));
    while i < options.len()
        invariant
            i <= options@.len(),
            model == items_view(options@),
            out@ == start + option_lines(model.take(i as int)),
        decreases options@.len() - i,
    {
        let option = &options[i];
        let label: &str = match option.get_str("label") {
            Some(label) => label,
            None => match option.get_str("value") {
                Some(value) => value,
                None => match option.as_str() {
                    Some(text) => text,
                    None => {
                        proof {
                            reveal_strlit("");
                        }
                        ""
                    },
                },
            },
        };
        assert(model[i as int] == option@);
        assert(label@ =~= option_label(option@));
        out.append("  ");
        push_usize(out, i + 1);
        out.append(") ");
        out.append(label);
        out.append("\n");
        proof {
            let next = model.take(i + 1);
            assert(next.drop_last() =~= model.take(i as int));
            assert(next.last() == option@);
            assert(out@ =~= start + option_lines(next));
        }
        i = i + 1;
    }
    assert(model.take(i as int) =~= model);
}

/// The prompt that is shown for a dialog. It opens with the extension that asks.
pub fn format_extension_ui_prompt(request: &ExtensionUiRequest) -> (r: String)
    ensures
        r@ == prompt_text(request@),
{
    let title: &str = match request.payload.get_str("title") {
        Some(title) => title,
        None => "Extension",
    };
    let message: &str = match request.payload.get_str("message") {
        Some(message) => message,
        None => "",
    };
    proof {
        reveal_strlit("");
    }
    assert(message@ =~= request@.message());
    let provenance: &str = match &request.extension_id {
        Some(id) => id.as_str(),
        None => match request.payload.get_str("extension_id") {
            Some(id) => id,
            None => "unknown",
        },
    };
    let method: &str = request.method.as_str();
    let mut out: String = String::new();
    out.append("[");
    out.append(provenance);
    if same_text(method, "confirm") {
        out.append("] confirm: ");
        out.append(title);
        out.append("\n");
        out.append(message);
        out.append("\n\nEnter yes/no, or 'cancel'.");
    } else if same_text(method, "select") {
        out.append("] select: ");
        out.append(title);
        out.append("\n");
        if !trim(message).is_empty() {
            out.append(message);
            out.append("\n");
        }
        if let Some(options) = request.payload.get("options") {
            if let Some(options) = options.as_array() {
                push_option_lines(&mut out, options);
            }
        }
        out.append("\nEnter a number, label, or 'cancel'.");
    } else if same_text(method, "input") {
        out.append("] input: ");
        out.append(title);
        out.append("\n");
        out.append(message);
    } else if same_text(method, "editor") {
        out.append("] editor: ");
        out.append(title);
        out.append("\n");
        out.append(message);
    } else {
        out.append("] ");
        out.append(title);
        out.append(" ");
        out.append(message);
    }
    assert(out@ =~= prompt_text(request@));
    out
}

// ---------------------------------------------------------------------------------------------
// Responses
// ---------------------------------------------------------------------------------------------

/// Whether an answer calls the dialog off: the word `cancel` or the letter `c`, in any case.
pub open spec fn cancels(input: Seq<char>) -> bool {
    let word = ascii_lower(trimmed(input));
    word == ascii_lower("cancel"@) || word == ascii_lower("c"@)
}

/// The answer to a confirmation that a lower case word gives.
pub open spec fn confirmation(lowered: Seq<char>) -> Option<bool> {
    if lowered == "y"@ || lowered == "yes"@ || lowered == "true"@ || lowered == "1"@ {
        Some(true)
    } else if lowered == "n"@ || lowered == "no"@ || lowered == "false"@ || lowered == "0"@ {
        Some(false)
    } else {
        None
    }
}

/// What choosing an option by its number stands for: its value, or else its label, or else the
/// option itself where it is a text.
pub open spec fn option_value(option: Json) -> Option<Json> {
    match option.get("value"@) {
        Some(value) => Some(value),
        None => match option.get("label"@) {
            Some(label) => Some(label),
            None => match option.as_str() {
                Some(text) => Some(Json::String(text)),
                None => None,
            },
        },
    }
}

/// The lower case texts by which an option can be chosen.
#[derive(Debug, PartialEq)]
pub struct OptionKeys {
    /// The option itself, where it is a text.
    pub text: Option<String>,
    /// Its label, where that is a text that is not empty.
    pub label: Option<String>,
    /// Its value, where that is a text.
    pub value: Option<String>,
}

/// The model of the keys of an option.
pub struct Keys {
    pub text: Option<Seq<char>>,
    pub label: Option<Seq<char>>,
    pub value: Option<Seq<char>>,
}

impl View for OptionKeys {
    type V = Keys;

    open spec fn view(&self) -> Keys {
        Keys {
            text: opt_chars(self.text),
            label: opt_chars(self.label),
            value: opt_chars(self.value),
        }
    }
}

/// The models of a list of keys.
pub open spec fn keys_view(keys: Seq<OptionKeys>) -> Seq<Keys> {
    keys.map_values(|k: OptionKeys| k@)
}

pub open spec fn opt_lowercase(text: Option<Seq<char>>) -> Option<Seq<char>> {
    match text {
        Some(text) => Some(lowercase(text)),
        None => None,
    }
}

/// The label of an option by which it can be chosen.
pub open spec fn usable_label(option: Json) -> Option<Seq<char>> {
    match option.get_str("label"@) {
        Some(label) => if label.len() > 0 {
            Some(label)
        } else {
            None
        },
        None => None,
    }
}

/// The keys of an option.
pub open spec fn keys_of(option: Json) -> Keys {
    Keys {
        text: opt_lowercase(option.as_str()),
        label: opt_lowercase(usable_label(option)),
        value: opt_lowercase(option.get_str("value"@)),
    }
}

/// Lower case folds the ASCII letters of every text by which an option can be chosen.
pub open spec fn keys_fold_ascii(option: Json) -> bool {
    &&& option.as_str() matches Some(text) ==> folds_ascii(text)
    &&& usable_label(option) matches Some(label) ==> folds_ascii(label)
    &&& option.get_str("value"@) matches Some(value) ==> folds_ascii(value)
}

/// What choosing an option by one of its keys stands for; `None` where `lowered` is none of them.
/// The option itself comes before its label, and its label before its value.
pub open spec fn key_match(option: Json, keys: Keys, lowered: Seq<char>) -> Option<Json> {
    if keys.text == Some(lowered) {
        Some(option)
    } else if keys.label == Some(lowered) {
        match option.get("value"@) {
            Some(value) => Some(value),
            None => option.get("label"@),
        }
    } else if keys.value == Some(lowered) {
        option.get("value"@)
    } else {
        None
    }
}

/// What the first option with the key `lowered` stands for.
pub open spec fn first_key_match(
    options: Seq<Json>,
    keys: Seq<Keys>,
    lowered: Seq<char>,
) -> Option<Json>
    decreases options.len(),
{
    if options.len() == 0 {
        None
    } else {
        match key_match(options[0], keys[0], lowered) {
            Some(value) => Some(value),
            None => first_key_match(options.drop_first(), keys.drop_first(), lowered),
        }
    }
}

/// What an answer to a selection stands for: a number in range picks that option, any other text
/// the first option with that key. `None` where it is neither.
pub open spec fn selection(
    options: Seq<Json>,
    keys: Seq<Keys>,
    answer: Seq<char>,
    lowered: Seq<char>,
) -> Option<Option<Json>> {
    let number = usize_of_text(answer);
    if number is Some && 1 <= number->0 <= options.len() {
        Some(option_value(options[number->0 - 1]))
    } else {
        match first_key_match(options, keys, lowered) {
            Some(value) => Some(Some(value)),
            None => None,
        }
    }
}

/// Whether the case of an answer to a dialog does not matter.
pub open spec fn reads_words(request: UiRequest) -> bool {
    ||| request.method == "confirm"@
    ||| request.method == "select"@ && request.options() is Some
}

/// The response that an answer to a dialog stands for, or the complaint about it.
pub open spec fn parse_response(request: UiRequest, input: Seq<char>) -> Result<
    UiResponse,
    Seq<char>,
> {
    let answer = trimmed(input);
    if cancels(input) {
        Ok(UiResponse { id: request.id, value: None, cancelled: true })
    } else if request.method == "confirm"@ {
        match confirmation(lowercase(answer)) {
            Some(yes) => Ok(
                UiResponse { id: request.id, value: Some(Json::Bool(yes)), cancelled: false },
            ),
            None => Err("Invalid confirmation. Enter yes/no, or 'cancel'."@),
        }
    } else if request.method == "select"@ {
        let choice = match request.options() {
            Some(options) => selection(
                options,
                options.map_values(|option: Json| keys_of(option)),
                answer,
                lowercase(answer),
            ),
            None => None,
        };
        match choice {
            Some(value) => Ok(UiResponse { id: request.id, value, cancelled: false }),
            None => Err("Invalid selection. Enter a number, label, or 'cancel'."@),
        }
    } else {
        Ok(UiResponse { id: request.id, value: Some(Json::String(input)), cancelled: false })
    }
}

/// A confirmation is no selection.
proof fn lemma_methods_differ()
    ensures
        "confirm"@ != "select"@,
{
    reveal_strlit("confirm");
    reveal_strlit("select");
    assert("confirm"@.len() != "select"@.len());
}

/// Reads the answer to a confirmation from a word in lower case.
pub fn parse_confirmation(lowered: &str) -> (r: Option<bool>)
    ensures
        r == confirmation(lowered@),
{
    if same_text(lowered, "y") || same_text(lowered, "yes") || same_text(lowered, "true")
        || same_text(lowered, "1") {
        Some(true)
    } else if same_text(lowered, "n") || same_text(lowered, "no") || same_text(lowered, "false")
        || same_text(lowered, "0") {
        Some(false)
    } else {
        None
    }
}

/// Lowers the texts by which an option can be chosen.
pub fn option_keys(option: &Value) -> (r: OptionKeys)
    ensures
        r@ == keys_of(option@),
        keys_fold_ascii(option@),
{
    let text: Option<String> = match option.as_str() {
        Some(text) => Some(to_lowercase(text)),
        None => None,
    };
    let label: Option<String> = match option.get_str("label") {
        Some(label) => if label.is_empty() {
            None
        } else {
            Some(to_lowercase(label))
        },
        None => None,
    };
    let value: Option<String> = match option.get_str("value") {
        Some(value) => Some(to_lowercase(value)),
        None => None,
    };
    OptionKeys { text, label, value }
}

/// Whether a key is present and equal to a text.
fn is_key(key: &Option<String>, lowered: &str) -> (r: bool)
    ensures
        r == (opt_chars(*key) == Some(lowered@)),
{
    match key {
        Some(key) => same_text(key.as_str(), lowered),
        None => false,
    }
}

/// A copy of the member `key`.
fn member(option: &Value, key: &str) -> (r: Option<Value>)
    ensures
        opt_json(r) == option@.get(key@),
{
    match option.get(key) {
        Some(value) => Some(value.clone()),
        None => None,
    }
}

/// What choosing an option by its number stands for.
pub fn chosen_value(option: &Value) -> (r: Option<Value>)
    ensures
        opt_json(r) == option_value(option@),
{
    match member(option, "value") {
        Some(value) => Some(value),
        None => match member(option, "label") {
            Some(label) => Some(label),
            None => match option.as_str() {
                Some(text) => Some(Value::String(text.to_owned())),
                None => None,
            },
        },
    }
}

/// What choosing an option by one of its keys stands for; `None` where `lowered` is none of them.
pub fn match_option(option: &Value, keys: &OptionKeys, lowered: &str) -> (r: Option<Value>)
    ensures
        opt_json(r) == key_match(option@, keys@, lowered@),
{
    if is_key(&keys.text, lowered) {
        Some(option.clone())
    } else if is_key(&keys.label, lowered) {
        match member(option, "value") {
            Some(value) => Some(value),
            None => member(option, "label"),
        }
    } else if is_key(&keys.value, lowered) {
        member(option, "value")
    } else {
        None
    }
}

/// Reads the answer to a selection, given the answer in lower case and the keys of the options.
pub fn parse_selection(
    options: &Vec<Value>,
    keys: &Vec<OptionKeys>,
    answer: &str,
    lowered: &str,
) -> (r: Option<Option<Value>>)
    requires
        keys@.len() == options@.len(),
    ensures
        match r {
            Some(value) => selection(items_view(options@), keys_view(keys@), answer@, lowered@)
                == Some(opt_json(value)),
            None => selection(items_view(options@), keys_view(keys@), answer@, lowered@) is None,
        },
{
    let ghost models = items_view(options@);
    let ghost key_models = keys_view(keys@);
    if let Some(number) = parse_usize(answer) {
        if number > 0 && number <= options.len() {
            assert(models[number - 1] == options@[number - 1]@);
            return Some(chosen_value(&options[number - 1]));
        }
    }
    let mut i: usize = 0;
    assert(models.skip(0) =~= models);
    assert(key_models.skip(0) =~= key_models);
    while i < options.len()
        invariant
            i <= options@.len(),
            keys@.len() == options@.len(),
            models == items_view(options@),
            key_models == keys_view(keys@),
            first_key_match(models, key_models, lowered@) == first_key_match(
                models.skip(i as int),
                key_models.skip(i as int),
                lowered@,
            ),
            !(usize_of_text(answer@) is Some && 1 <= usize_of_text(answer@)->0 <= models.len()),
        decreases options@.len() - i,
    {
        assert(models.skip(i as int)[0] == options@[i as int]@);
        assert(key_models.skip(i as int)[0] == keys@[i as int]@);
        if let Some(value) = match_option(&options[i], &keys[i], lowered) {
            return Some(Some(value));
        }
        assert(models.skip(i as int).drop_first() =~= models.skip(i + 1));
        assert(key_models.skip(i as int).drop_first() =~= key_models.skip(i + 1));
        i = i + 1;
    }
    None
}

/// The response that an answer to a dialog stands for, or the complaint about it.
pub fn parse_extension_ui_response(request: &ExtensionUiRequest, input: &str) -> (r: Result<
    ExtensionUiResponse,
    String,
>)
    ensures
        match r {
            Ok(response) => parse_response(request@, input@) == Ok::<UiResponse, Seq<char>>(
                response@,
            ),
            Err(complaint) => parse_response(request@, input@) == Err::<UiResponse, Seq<char>>(
                complaint@,
            ),
        },
        reads_words(request@) && !cancels(input@) ==> folds_ascii(trimmed(input@)),
        reads_words(request@) && !cancels(input@) && request@.method == "select"@ ==> forall|k: int|
            0 <= k < request@.options()->0.len() ==> keys_fold_ascii(
                #[trigger] request@.options()->0[k],
            ),
{
    let answer: &str = trim(input);
    if eq_ignore_ascii_case(answer, "cancel") || eq_ignore_ascii_case(answer, "c") {
        return Ok(
            ExtensionUiResponse { id: request.id.clone(), value: None, cancelled: true },
        );
    }
    let method: &str = request.method.as_str();
    proof {
        lemma_methods_differ();
    }
    if same_text(method, "confirm") {
        let lowered: String = to_lowercase(answer);
        match parse_confirmation(lowered.as_str()) {
            Some(yes) => Ok(
                ExtensionUiResponse {
                    id: request.id.clone(),
                    value: Some(Value::Bool(yes)),
                    cancelled: false,
                },
            ),
            None => Err("Invalid confirmation. Enter yes/no, or 'cancel'.".to_owned()),
        }
    } else if same_text(method, "select") {
        let options: Option<&Vec<Value>> = match request.payload.get("options") {
            Some(options) => options.as_array(),
            None => None,
        };
        let choice: Option<Option<Value>> = match options {
            Some(options) => {
                let keys: Vec<OptionKeys> = all_option_keys(options);
                let lowered: String = to_lowercase(answer);
                parse_selection(options, &keys, answer, lowered.as_str())
            },
            None => None,
        };
        match choice {
            Some(value) => Ok(
                ExtensionUiResponse { id: request.id.clone(), value, cancelled: false },
            ),
            None => Err("Invalid selection. Enter a number, label, or 'cancel'.".to_owned()),
        }
    } else {
        Ok(
            ExtensionUiResponse {
                id: request.id.clone(),
                value: Some(Value::String(input.to_owned())),
                cancelled: false,
            },
        )
    }
}

/// The keys of every option.
fn all_option_keys(options: &Vec<Value>) -> (r: Vec<OptionKeys>)
    ensures
        r@.len() == options@.len(),
        keys_view(r@) == items_view(options@).map_values(|option: Json| keys_of(option)),
        forall|k: int|
            0 <= k < options@.len() ==> keys_fold_ascii(#[trigger] items_view(options@)[k]),
{
    let mut keys: Vec<OptionKeys> = Vec::new();
    let mut i: usize = 0;
    while i < options.len()
        invariant
            i <= options@.len(),
            keys@.len() == i,
            forall|k: int| 0 <= k < i ==> (#[trigger] keys@[k])@ == keys_of(options@[k]@),
            forall|k: int| 0 <= k < i ==> keys_fold_ascii(#[trigger] items_view(options@)[k]),
        decreases options@.len() - i,
    {
        keys.push(option_keys(&options[i]));
        i = i + 1;
    }
    assert(keys_view(keys@) =~= items_view(options@).map_values(|option: Json| keys_of(option)));
    keys
}

// ---------------------------------------------------------------------------------------------
// Laws
// ---------------------------------------------------------------------------------------------

/// Every prompt opens with the extension that asks, in brackets.
pub proof fn law_prompt_shows_provenance(request: UiRequest)
    ensures
        ("["@ + request.provenance() + "]"@).is_prefix_of(prompt_text(request)),
{
    reveal_strlit("]");
    reveal_strlit("] confirm: ");
    reveal_strlit("] select: ");
    reveal_strlit("] input: ");
    reveal_strlit("] editor: ");
    reveal_strlit("] ");
    let head = "["@ + request.provenance() + "]"@;
    assert(prompt_text(request).take(head.len() as int) =~= head);
}

/// The prompt of a selection lists every option on a line of its own, with its number and its
/// label.
pub proof fn law_prompt_lists_options(request: UiRequest, options: Seq<Json>, k: int)
    requires
        request.method == "select"@,
        request.options() == Some(options),
        1 <= k <= options.len(),
    ensures
        exists|before: Seq<char>, after: Seq<char>|
            prompt_text(request) == #[trigger] (before + option_line(options, k) + after),
{
    lemma_methods_differ();
    lemma_option_lines_contains(options, k);
    let (before, after) = choose|before: Seq<char>, after: Seq<char>|
        option_lines(options) == #[trigger] (before + option_line(options, k) + after);
    let head = "["@ + request.provenance() + "] select: "@ + request.title() + "\n"@;
    let message = if blank(request.message()) {
        Seq::empty()
    } else {
        request.message() + "\n"@
    };
    let tail = "\nEnter a number, label, or 'cancel'."@;
    assert(prompt_text(request) =~= (head + message + before) + option_line(options, k) + (after
        + tail));
}

/// The line of the option that is counted `k`.
pub open spec fn option_line(options: Seq<Json>, k: int) -> Seq<char> {
    "  "@ + decimal(k as nat) + ") "@ + option_label(options[k - 1]) + "\n"@
}

proof fn lemma_option_lines_contains(options: Seq<Json>, k: int)
    requires
        1 <= k <= options.len(),
    ensures
        exists|before: Seq<char>, after: Seq<char>|
            option_lines(options) == #[trigger] (before + option_line(options, k) + after),
    decreases options.len(),
{
    let init = options.drop_last();
    if k == options.len() {
        assert(option_lines(options) =~= option_lines(init) + option_line(options, k)
            + Seq::<char>::empty());
    } else {
        lemma_option_lines_contains(init, k);
        let (before, after) = choose|before: Seq<char>, after: Seq<char>|
            option_lines(init) == #[trigger] (before + option_line(init, k) + after);
        let last = "  "@ + decimal(options.len()) + ") "@ + option_label(options.last()) + "\n"@;
        assert(option_line(init, k) == option_line(options, k));
        assert(option_lines(options) =~= before + option_line(options, k) + (after + last));
    }
}

/// A response carries the id of its request, and it is cancelled exactly where the answer calls
/// the dialog off, whatever the dialog is. A cancelled response has no value.
pub proof fn law_response_identity_and_cancellation(request: UiRequest, input: Seq<char>)
    ensures
        cancels(input) ==> parse_response(request, input) is Ok,
        parse_response(request, input) matches Ok(response) ==> {
            &&& response.id == request.id
            &&& response.cancelled == cancels(input)
            &&& response.cancelled ==> response.value is None
        },
{
}

/// Only confirmations and selections complain about an answer. Any other dialog takes the answer
/// as it was typed, white space included.
pub proof fn law_free_text_is_kept(request: UiRequest, input: Seq<char>)
    requires
        request.method != "confirm"@,
        request.method != "select"@,
        !cancels(input),
    ensures
        parse_response(request, input) == Ok::<UiResponse, Seq<char>>(
            UiResponse { id: request.id, value: Some(Json::String(input)), cancelled: false },
        ),
{
}

/// White space around the answer to a confirmation or a selection does not matter.
pub proof fn law_outer_white_space_is_ignored(request: UiRequest, input: Seq<char>)
    requires
        request.method == "confirm"@ || request.method == "select"@,
    ensures
        parse_response(request, input) == parse_response(request, trimmed(input)),
{
    crate::text::lemma_trimmed_idempotent(input);
}

/// The case of ASCII letters in an answer to a confirmation or a selection does not matter, where
/// the answers hold ASCII characters only and lower case folds them.
pub proof fn law_case_is_ignored(request: UiRequest, input: Seq<char>, other: Seq<char>)
    requires
        request.method == "confirm"@ || request.method == "select"@,
        ascii_lower(input) == ascii_lower(other),
        vstd::utf8::is_ascii_chars(input),
        folds_ascii(trimmed(input)),
        folds_ascii(trimmed(other)),
    ensures
        parse_response(request, input) == parse_response(request, other),
{
    lemma_ascii_lower_trims(input);
    lemma_ascii_lower_trims(other);
    lemma_same_case_is_ascii(input, other);
    lemma_trimmed_is_ascii(input);
    lemma_trimmed_is_ascii(other);
    lemma_number_has_no_case(trimmed(input));
    lemma_number_has_no_case(trimmed(other));
}

/// Typing the number that the prompt shows for an option chooses that option.
pub proof fn law_number_chooses_its_option(request: UiRequest, options: Seq<Json>, k: usize)
    requires
        request.method == "select"@,
        request.options() == Some(options),
        1 <= k <= options.len(),
    ensures
        parse_response(request, decimal(k as nat)) == Ok::<UiResponse, Seq<char>>(
            UiResponse {
                id: request.id,
                value: option_value(options[k - 1]),
                cancelled: false,
            },
        ),
{
    let typed = decimal(k as nat);
    lemma_decimal_roundtrip(k);
    crate::text::lemma_decimal_digits(k as nat);
    assert(crate::text::is_digit(typed[0]));
    assert(crate::text::is_digit(typed[typed.len() - 1]));
    crate::text::lemma_trimmed_keeps(typed);
    reveal_strlit("cancel");
    reveal_strlit("c");
    assert(ascii_lower(typed)[0] == typed[0]);
    assert(ascii_lower("cancel"@)[0] == 'c');
    assert(ascii_lower("c"@)[0] == 'c');
    lemma_methods_differ();
}

/// Choosing by text takes the first option that the text matches.
pub proof fn law_first_match_wins(options: Seq<Json>, keys: Seq<Keys>, lowered: Seq<char>)
    requires
        keys.len() == options.len(),
    ensures
        match first_key_match(options, keys, lowered) {
            Some(value) => exists|i: int|
                {
                    &&& 0 <= i < options.len()
                    &&& #[trigger] key_match(options[i], keys[i], lowered) == Some(value)
                    &&& forall|j: int|
                        0 <= j < i ==> #[trigger] key_match(options[j], keys[j], lowered) is None
                },
            None => forall|i: int|
                0 <= i < options.len() ==> #[trigger] key_match(options[i], keys[i], lowered)
                    is None,
        },
    decreases options.len(),
{
    if options.len() > 0 {
        let rest = options.drop_first();
        let rest_keys = keys.drop_first();
        law_first_match_wins(rest, rest_keys, lowered);
        assert forall|j: int|
            1 <= j < options.len() implies #[trigger] key_match(options[j], keys[j], lowered)
            == key_match(rest[j - 1], rest_keys[j - 1], lowered) by {
            assert(rest[j - 1] == options[j]);
            assert(rest_keys[j - 1] == keys[j]);
        }
        if key_match(options[0], keys[0], lowered) is None {
            match first_key_match(rest, rest_keys, lowered) {
                Some(value) => {
                    let i = choose|i: int|
                        {
                            &&& 0 <= i < rest.len()
                            &&& #[trigger] key_match(rest[i], rest_keys[i], lowered) == Some(value)
                            &&& forall|j: int|
                                0 <= j < i ==> #[trigger] key_match(rest[j], rest_keys[j], lowered)
                                    is None
                        };
                    assert(key_match(options[i + 1], keys[i + 1], lowered) == Some(value));
                },
                None => {},
            }
        } else {
            assert(key_match(options[0], keys[0], lowered) == first_key_match(
                options,
                keys,
                lowered,
            ));
        }
    }
}

/// Typing a label that the prompt of a selection shows is never an invalid selection: it cancels
/// where it reads as a word that does, and else it chooses an option, with a value unless it reads
/// as the number of an option that has none. The label must not be empty, nor start or end with
/// white space, which an answer loses.
pub proof fn law_listed_label_is_accepted(request: UiRequest, options: Seq<Json>, k: int)
    requires
        request.method == "select"@,
        request.options() == Some(options),
        1 <= k <= options.len(),
        option_label(options[k - 1]).len() > 0,
        trimmed(option_label(options[k - 1])) == option_label(options[k - 1]),
    ensures
        match parse_response(request, option_label(options[k - 1])) {
            Ok(response) => response.cancelled || response.value is Some || usize_of_text(
                option_label(options[k - 1]),
            ) is Some,
            Err(_) => false,
        },
{
    let label = option_label(options[k - 1]);
    let keys = options.map_values(|option: Json| keys_of(option));
    lemma_methods_differ();
    law_first_match_wins(options, keys, lowercase(label));
    assert(key_match(options[k - 1], keys[k - 1], lowercase(label)) is Some);
}

/// Typing a label that the prompt of a selection shows chooses the same as typing its number. The
/// label must not be empty, nor start or end with white space, nor read as a word that cancels or
/// as the number of an option, and no earlier option may have it as a key.
pub proof fn law_label_chooses_as_its_number(request: UiRequest, options: Seq<Json>, k: usize)
    requires
        request.method == "select"@,
        request.options() == Some(options),
        1 <= k <= options.len(),
        option_label(options[k - 1]).len() > 0,
        trimmed(option_label(options[k - 1])) == option_label(options[k - 1]),
        !cancels(option_label(options[k - 1])),
        usize_of_text(option_label(options[k - 1])) matches Some(number) ==> !(1 <= number
            <= options.len()),
        forall|j: int|
            0 <= j < k - 1 ==> key_match(
                options[j],
                #[trigger] keys_of(options[j]),
                lowercase(option_label(options[k - 1])),
            ) is None,
    ensures
        parse_response(request, option_label(options[k - 1])) == parse_response(
            request,
            decimal(k as nat),
        ),
{
    let option = options[k - 1];
    let lowered = lowercase(option_label(option));
    let keys = options.map_values(|option: Json| keys_of(option));
    lemma_methods_differ();
    law_number_chooses_its_option(request, options, k);
    assert(keys[k - 1] == keys_of(option));
    assert(key_match(option, keys[k - 1], lowered) == option_value(option));
    assert forall|j: int| 0 <= j < k - 1 implies #[trigger] key_match(
        options[j],
        keys[j],
        lowered,
    ) is None by {
        assert(keys[j] == keys_of(options[j]));
    }
    law_first_match_wins(options, keys, lowered);
}

// ---------------------------------------------------------------------------------------------
// Laws on what the payload holds
// ---------------------------------------------------------------------------------------------

/// Whether an option goes by a word in lower case: as the text that it is, by its label, or by its
/// value.
pub open spec fn goes_by(option: Json, word: Seq<char>) -> bool {
    ||| option matches Json::String(text) && lowercase(text) == word
    ||| option.get("label"@) matches Some(Json::String(label)) && label.len() > 0 && lowercase(
        label,
    ) == word
    ||| option.get("value"@) matches Some(Json::String(value)) && lowercase(value) == word
}

/// Whether an answer is one of the two words that call a dialog off.
pub open spec fn is_cancel_word(input: Seq<char>) -> bool {
    ascii_lower(trimmed(input)) == "cancel"@ || ascii_lower(trimmed(input)) == "c"@
}

/// Calling off works in every dialog, and nothing else calls one off.
pub proof fn law_cancel_words(request: UiRequest, input: Seq<char>)
    ensures
        is_cancel_word(input) ==> parse_response(request, input) == Ok::<UiResponse, Seq<char>>(
            UiResponse { id: request.id, value: None, cancelled: true },
        ),
        !is_cancel_word(input) ==> (parse_response(request, input) matches Ok(response)
            ==> !response.cancelled),
        cancels(input) == is_cancel_word(input),
{
    reveal_strlit("cancel");
    reveal_strlit("c");
    assert(ascii_lower("cancel"@) =~= "cancel"@);
    assert(ascii_lower("c"@) =~= "c"@);
}

/// A confirmation takes four words for yes and four for no, and complains about any other.
pub proof fn law_confirmation_words(request: UiRequest, input: Seq<char>)
    requires
        request.method == "confirm"@,
        !is_cancel_word(input),
    ensures
        ({
            let word = lowercase(trimmed(input));
            let yes = word == "y"@ || word == "yes"@ || word == "true"@ || word == "1"@;
            let no = word == "n"@ || word == "no"@ || word == "false"@ || word == "0"@;
            &&& !(yes && no)
            &&& yes ==> parse_response(request, input) == Ok::<UiResponse, Seq<char>>(
                UiResponse { id: request.id, value: Some(Json::Bool(true)), cancelled: false },
            )
            &&& no ==> parse_response(request, input) == Ok::<UiResponse, Seq<char>>(
                UiResponse { id: request.id, value: Some(Json::Bool(false)), cancelled: false },
            )
            &&& !yes && !no ==> parse_response(request, input) == Err::<UiResponse, Seq<char>>(
                "Invalid confirmation. Enter yes/no, or 'cancel'."@,
            )
        }),
{
    law_cancel_words(request, input);
    reveal_strlit("y");
    reveal_strlit("yes");
    reveal_strlit("true");
    reveal_strlit("1");
    reveal_strlit("n");
    reveal_strlit("no");
    reveal_strlit("false");
    reveal_strlit("0");
    assert("y"@.len() == 1 && "yes"@.len() == 3 && "true"@.len() == 4 && "1"@.len() == 1);
    assert("n"@.len() == 1 && "no"@.len() == 2 && "false"@.len() == 5 && "0"@.len() == 1);
    assert("y"@[0] == 'y' && "1"@[0] == '1' && "n"@[0] == 'n' && "0"@[0] == '0');
}

/// A number is no word that cancels.
proof fn lemma_number_is_no_cancel_word(input: Seq<char>)
    requires
        usize_of_text(trimmed(input)) is Some,
    ensures
        !is_cancel_word(input),
{
    let typed = trimmed(input);
    let digits = crate::text::without_plus(typed);
    assert(crate::text::is_digit(digits[0]));
    assert(typed[0] == '+' || crate::text::is_digit(typed[0]));
    assert(ascii_lower(typed)[0] == typed[0]);
    reveal_strlit("cancel");
    reveal_strlit("c");
    assert("cancel"@[0] == 'c' && "c"@[0] == 'c');
}

/// Answering a selection with the number of an option gives the member `value` of that option,
/// whatever it is; without one, its member `label`; without either, the option itself where it is a
/// text; and else no value.
pub proof fn law_number_gives_the_value(
    request: UiRequest,
    options: Seq<Json>,
    input: Seq<char>,
    k: int,
)
    requires
        request.method == "select"@,
        request.payload.get("options"@) == Some(Json::Array(options)),
        1 <= k <= options.len(),
        usize_of_text(trimmed(input)) == Some(k as usize),
        k <= usize::MAX,
    ensures
        ({
            let option = options[k - 1];
            let response = parse_response(request, input);
            &&& option.get("value"@) matches Some(value) ==> response == Ok::<
                UiResponse,
                Seq<char>,
            >(UiResponse { id: request.id, value: Some(value), cancelled: false })
            &&& option.get("value"@) is None ==> (option.get("label"@) matches Some(label)
                ==> response == Ok::<UiResponse, Seq<char>>(
                UiResponse { id: request.id, value: Some(label), cancelled: false },
            ))
            &&& option.get("value"@) is None && option.get("label"@) is None && option is String
                ==> response == Ok::<UiResponse, Seq<char>>(
                UiResponse { id: request.id, value: Some(option), cancelled: false },
            )
            &&& option.get("value"@) is None && option.get("label"@) is None && !(option is String)
                ==> response == Ok::<UiResponse, Seq<char>>(
                UiResponse { id: request.id, value: None, cancelled: false },
            )
        }),
{
    lemma_methods_differ();
    lemma_number_is_no_cancel_word(input);
    law_cancel_words(request, input);
}

/// Typing the number that the prompt shows for an option, with white space around it or without,
/// gives the member `value` of that option, whatever it is.
pub proof fn law_shown_number_gives_the_value(
    request: UiRequest,
    options: Seq<Json>,
    input: Seq<char>,
    k: usize,
    value: Json,
)
    requires
        request.method == "select"@,
        request.payload.get("options"@) == Some(Json::Array(options)),
        1 <= k <= options.len(),
        trimmed(input) == decimal(k as nat),
        options[k - 1].get("value"@) == Some(value),
    ensures
        parse_response(request, input) == Ok::<UiResponse, Seq<char>>(
            UiResponse { id: request.id, value: Some(value), cancelled: false },
        ),
{
    lemma_decimal_roundtrip(k);
    law_number_gives_the_value(request, options, input, k as int);
}

/// Answering a selection with a word takes the first option that goes by it. An option that is a
/// text gives itself. One that goes by its label gives its member `value`, whatever it is, or else
/// the label; one that goes by its value gives that.
pub proof fn law_word_gives_the_value(
    request: UiRequest,
    options: Seq<Json>,
    input: Seq<char>,
    k: int,
)
    requires
        request.method == "select"@,
        request.payload.get("options"@) == Some(Json::Array(options)),
        !is_cancel_word(input),
        usize_of_text(trimmed(input)) matches Some(number) ==> !(1 <= number <= options.len()),
        1 <= k <= options.len(),
        goes_by(options[k - 1], lowercase(trimmed(input))),
        forall|j: int|
            0 <= j < k - 1 ==> !goes_by(#[trigger] options[j], lowercase(trimmed(input))),
    ensures
        ({
            let option = options[k - 1];
            let response = parse_response(request, input);
            &&& option is String ==> response == Ok::<UiResponse, Seq<char>>(
                UiResponse { id: request.id, value: Some(option), cancelled: false },
            )
            &&& option.get("value"@) matches Some(value) ==> response == Ok::<
                UiResponse,
                Seq<char>,
            >(UiResponse { id: request.id, value: Some(value), cancelled: false })
            &&& !(option is String) && option.get("value"@) is None ==> (option.get("label"@)
                matches Some(label) && response == Ok::<UiResponse, Seq<char>>(
                UiResponse { id: request.id, value: Some(label), cancelled: false },
            ))
        }),
{
    let word = lowercase(trimmed(input));
    let keys = options.map_values(|option: Json| keys_of(option));
    lemma_methods_differ();
    law_cancel_words(request, input);
    law_first_match_wins(options, keys, word);
    assert forall|j: int| 0 <= j < options.len() implies (#[trigger] key_match(
        options[j],
        keys[j],
        word,
    ) is Some) == goes_by(options[j], word) by {
        assert(keys[j] == keys_of(options[j]));
    }
    assert(key_match(options[k - 1], keys[k - 1], word) is Some);
}

/// An answer to a selection that is neither the number of an option nor a word that one goes by is
/// complained about.
pub proof fn law_unknown_selection_is_refused(
    request: UiRequest,
    options: Seq<Json>,
    input: Seq<char>,
)
    requires
        request.method == "select"@,
        request.payload.get("options"@) == Some(Json::Array(options)),
        !is_cancel_word(input),
        usize_of_text(trimmed(input)) matches Some(number) ==> !(1 <= number <= options.len()),
        forall|j: int|
            0 <= j < options.len() ==> !goes_by(#[trigger] options[j], lowercase(trimmed(input))),
    ensures
        parse_response(request, input) == Err::<UiResponse, Seq<char>>(
            "Invalid selection. Enter a number, label, or 'cancel'."@,
        ),
{
    let word = lowercase(trimmed(input));
    let keys = options.map_values(|option: Json| keys_of(option));
    lemma_methods_differ();
    law_cancel_words(request, input);
    law_first_match_wins(options, keys, word);
    assert forall|j: int| 0 <= j < options.len() implies (#[trigger] key_match(
        options[j],
        keys[j],
        word,
    ) is Some) == goes_by(options[j], word) by {
        assert(keys[j] == keys_of(options[j]));
    }
}

/// A selection without a list of options takes no answer but one that calls it off.
pub proof fn law_selection_needs_options(request: UiRequest, input: Seq<char>)
    requires
        request.method == "select"@,
        !(request.payload.get("options"@) matches Some(Json::Array(_))),
        !is_cancel_word(input),
    ensures
        parse_response(request, input) == Err::<UiResponse, Seq<char>>(
            "Invalid selection. Enter a number, label, or 'cancel'."@,
        ),
{
    lemma_methods_differ();
    law_cancel_words(request, input);
}

/// Any other dialog takes the answer as it was typed.
pub proof fn law_other_dialogs_take_any_text(request: UiRequest, input: Seq<char>)
    requires
        request.method != "confirm"@,
        request.method != "select"@,
        !is_cancel_word(input),
    ensures
        parse_response(request, input) == Ok::<UiResponse, Seq<char>>(
            UiResponse { id: request.id, value: Some(Json::String(input)), cancelled: false },
        ),
{
    law_cancel_words(request, input);
}

/// Whether a member of the payload is this text, or is no text and this stands in for it.
pub open spec fn text_or(
    payload: Json,
    name: Seq<char>,
    text: Seq<char>,
    fallback: Seq<char>,
) -> bool {
    match payload.get(name) {
        Some(Json::String(member)) => text == member,
        _ => text == fallback,
    }
}

/// Whether `who` is who asks: the extension that the host knows, or else the one that the payload
/// names, or else nobody known.
pub open spec fn asks(request: UiRequest, who: Seq<char>) -> bool {
    match request.extension_id {
        Some(id) => who == id,
        None => text_or(request.payload, "extension_id"@, who, "unknown"@),
    }
}

/// What the prompt of a dialog other than a selection reads.
pub proof fn law_prompt_reads(
    request: UiRequest,
    who: Seq<char>,
    title: Seq<char>,
    message: Seq<char>,
)
    requires
        asks(request, who),
        text_or(request.payload, "title"@, title, "Extension"@),
        text_or(request.payload, "message"@, message, Seq::empty()),
    ensures
        request.method == "confirm"@ ==> prompt_text(request) == "["@ + who + "] confirm: "@ + title
            + "\n"@ + message + "\n\nEnter yes/no, or 'cancel'."@,
        request.method == "input"@ ==> prompt_text(request) == "["@ + who + "] input: "@ + title
            + "\n"@ + message,
        request.method == "editor"@ ==> prompt_text(request) == "["@ + who + "] editor: "@ + title
            + "\n"@ + message,
        request.method != "confirm"@ && request.method != "select"@ && request.method != "input"@
            && request.method != "editor"@ ==> prompt_text(request) == "["@ + who + "] "@ + title
            + " "@ + message,
{
    reveal_strlit("confirm");
    reveal_strlit("select");
    reveal_strlit("input");
    reveal_strlit("editor");
    assert("confirm"@.len() == 7 && "select"@.len() == 6 && "input"@.len() == 5 && "editor"@.len()
        == 6);
    assert("select"@[0] == 's' && "editor"@[0] == 'e');
}

/// What the prompt of a selection without options reads. A message of white space only is left out.
pub proof fn law_empty_selection_reads(
    request: UiRequest,
    who: Seq<char>,
    title: Seq<char>,
    message: Seq<char>,
)
    requires
        request.method == "select"@,
        asks(request, who),
        text_or(request.payload, "title"@, title, "Extension"@),
        text_or(request.payload, "message"@, message, Seq::empty()),
        request.payload.get("options"@) matches Some(Json::Array(options)) ==> options.len() == 0,
    ensures
        (forall|i: int| 0 <= i < message.len() ==> white_space(message[i])) ==> prompt_text(request)
            == "["@ + who + "] select: "@ + title + "\n"@
            + "\nEnter a number, label, or 'cancel'."@,
        (exists|i: int| 0 <= i < message.len() && !white_space(message[i])) ==> prompt_text(request)
            == "["@ + who + "] select: "@ + title + "\n"@ + message + "\n"@
            + "\nEnter a number, label, or 'cancel'."@,
{
    lemma_methods_differ();
    law_blank_is_all_white_space(message);
    let head = "["@ + who + "] select: "@ + title + "\n"@;
    let tail = "\nEnter a number, label, or 'cancel'."@;
    assert(head + Seq::<char>::empty() + Seq::<char>::empty() + tail =~= head + tail);
    assert(head + (message + "\n"@) + Seq::<char>::empty() + tail =~= head + message + "\n"@
        + tail);
}

/// One more option puts one more line before the last of the prompt: two blanks, the number of the
/// option, a bracket and a blank, and its label, or else its value, or else the option itself,
/// whichever is a text first.
pub proof fn law_option_adds_a_line(
    request: UiRequest,
    more: UiRequest,
    options: Seq<Json>,
    option: Json,
    label: Seq<char>,
)
    requires
        request.method == "select"@,
        more.method == "select"@,
        more.extension_id == request.extension_id,
        more.payload.get("extension_id"@) == request.payload.get("extension_id"@),
        more.payload.get("title"@) == request.payload.get("title"@),
        more.payload.get("message"@) == request.payload.get("message"@),
        request.payload.get("options"@) == Some(Json::Array(options)),
        more.payload.get("options"@) == Some(Json::Array(options.push(option))),
        match (option.get("label"@), option.get("value"@), option) {
            (Some(Json::String(text)), _, _) => label == text,
            (_, Some(Json::String(text)), _) => label == text,
            (_, _, Json::String(text)) => label == text,
            _ => label.len() == 0,
        },
    ensures
        ({
            let tail = "\nEnter a number, label, or 'cancel'."@;
            let n = prompt_text(request).len() - tail.len();
            &&& n >= 0
            &&& prompt_text(request) == prompt_text(request).take(n) + tail
            &&& prompt_text(more) == prompt_text(request).take(n) + "  "@ + decimal(
                options.len() + 1,
            ) + ") "@ + label + "\n"@ + tail
        }),
{
    lemma_methods_differ();
    let tail = "\nEnter a number, label, or 'cancel'."@;
    let head = "["@ + request.provenance() + "] select: "@ + request.title() + "\n"@;
    let message = if blank(request.message()) {
        Seq::empty()
    } else {
        request.message() + "\n"@
    };
    let before = head + message + option_lines(options);
    let n = prompt_text(request).len() - tail.len();
    assert(prompt_text(request) == before + tail);
    assert(prompt_text(request).take(n) =~= before);
    assert(more.provenance() == request.provenance() && more.title() == request.title());
    assert(more.message() == request.message());
    assert(options.push(option).drop_last() =~= options);
    assert(options.push(option).last() == option);
    assert(option_label(option) =~= label);
    assert(prompt_text(more) =~= before + "  "@ + decimal(options.len() + 1) + ") "@ + label
        + "\n"@ + tail);
}

/// The models of requests and responses leave out nothing.
pub proof fn law_dialog_models_keep_fields(
    request: ExtensionUiRequest,
    response: ExtensionUiResponse,
)
    ensures
        request@.id == request.id@,
        request@.method == request.method@,
        request@.payload == request.payload@,
        request.extension_id is None <==> request@.extension_id is None,
        request.extension_id matches Some(id) ==> request@.extension_id == Some(id@),
        response@.id == response.id@,
        response@.cancelled == response.cancelled,
        response.value is None <==> response@.value is None,
        response.value matches Some(value) ==> response@.value == Some(value@),
{
}

} // verus!
