//! What the user hands in: the video, the prompt, the options and the key.

use crate::json::{json, Json};
use crate::paths::{
    components, file_name, file_name_of, law_portable_paths_have_one_name, lemma_components_lowered,
    lemma_lowered_dots, may_be_file_name, portable,
};
use crate::text::{
    last_position, law_lowered_twice, law_trimmed, law_trimmed_is_the_middle,
    lemma_last_position, lemma_last_position_lowered, lowered, outcome, rfind, same_lowered, starts_with, trim, trimmed,
    view_of, white, Cut,
};
use serde_json::Value;
use vstd::prelude::*;

verus! {

/// The model that is asked where the user names none.
pub const DEFAULT_MODEL: &'static str = "google/gemini-2.5-flash";

/// How many tokens an answer may have where the user names no limit.
pub const DEFAULT_MAX_OUTPUT_TOKENS: u32 = 4096;

/// Seconds between two looks at the queue where the user names no interval.
pub const DEFAULT_POLL_INTERVAL_SECS: u64 = 5;

/// Seconds after which waiting ends where the user names no limit.
pub const DEFAULT_MAX_WAIT_SECS: u64 = 1200;

/// The sampling temperature where the user names none, as it is written on the
/// command line.
pub const DEFAULT_TEMPERATURE: &'static str = "1";

/// The prompt that every request starts with.
pub const BRIEF: &'static str =
    "Create a detailed video recreation brief from this video. Return only the brief text, not JSON. Include scene/timestamp notes, camera framing and motion, subjects and actions, on-screen text, audio or spoken content, pacing, transitions, visual style, and enough concrete detail to recreate the same video in another AI video tool.";

/// The file name that stands in where a path has none.
pub const UNNAMED_FILE: &'static str = "upload.bin";

/// The options of one run. `S` is the type of texts and `J` the type of JSON
/// values: `String` and `Value` in code, their contents in contracts.
#[derive(Debug)]
pub struct Cli<S, J> {
    /// A path, or a web address.
    pub input: S,
    /// The model that is asked.
    pub model: S,
    /// How many tokens the answer may have.
    pub max_output_tokens: u32,
    /// The sampling temperature, a JSON number.
    pub temperature: J,
    /// The user's own instruction.
    pub prompt: Option<S>,
    /// Seconds between two looks at the queue.
    pub poll_interval_secs: u64,
    /// Seconds after which waiting ends.
    pub max_wait_secs: u64,
}

impl View for Cli<String, Value> {
    type V = Cli<Seq<char>, Json>;

    open spec fn view(&self) -> Cli<Seq<char>, Json> {
        Cli {
            input: self.input@,
            model: self.model@,
            max_output_tokens: self.max_output_tokens,
            temperature: json(self.temperature),
            prompt: view_of(self.prompt),
            poll_interval_secs: self.poll_interval_secs,
            max_wait_secs: self.max_wait_secs,
        }
    }
}

impl Cli<String, Value> {
    /// The options of a run on `input` at this temperature that leaves every
    /// other option at its default.
    pub fn with_defaults(input: String, temperature: Value) -> (r: Cli<String, Value>)
        ensures
            r@ == (Cli {
                input: input@,
                model: DEFAULT_MODEL@,
                max_output_tokens: DEFAULT_MAX_OUTPUT_TOKENS,
                temperature: json(temperature),
                prompt: None,
                poll_interval_secs: DEFAULT_POLL_INTERVAL_SECS,
                max_wait_secs: DEFAULT_MAX_WAIT_SECS,
            }),
    {
        Cli {
            input,
            model: DEFAULT_MODEL.to_owned(),
            max_output_tokens: DEFAULT_MAX_OUTPUT_TOKENS,
            temperature,
            prompt: None,
            poll_interval_secs: DEFAULT_POLL_INTERVAL_SECS,
            max_wait_secs: DEFAULT_MAX_WAIT_SECS,
        }
    }
}

/// Whether the input is a web address.
pub open spec fn url_like(input: Seq<char>) -> bool {
    "http://"@.is_prefix_of(input) || "https://"@.is_prefix_of(input)
}

/// Whether the input is a web address.
pub fn is_url(input: &str) -> (r: bool)
    ensures
        r == url_like(input@),
{
    starts_with(input, "http://") || starts_with(input, "https://")
}

/// The extension of a file name: what follows its last `.`, unless that `.`
/// is missing or comes first.
pub open spec fn extension_of(name: Seq<char>) -> Option<Seq<char>> {
    match last_position(name, '.') {
        Some(i) if i > 0 => Some(name.skip(i + 1)),
        _ => None,
    }
}

/// The media type that belongs to a file extension in lower case.
pub open spec fn media_type(extension: Seq<char>) -> Seq<char> {
    if extension == "mp4"@ || extension == "m4v"@ {
        "video/mp4"@
    } else if extension == "mpeg"@ || extension == "mpg"@ {
        "video/mpeg"@
    } else if extension == "mov"@ {
        "video/quicktime"@
    } else if extension == "webm"@ {
        "video/webm"@
    } else {
        "application/octet-stream"@
    }
}

/// The media type of a file, by the extension of its name. Upper and lower
/// case of ASCII letters do not matter.
pub open spec fn media_type_of(name: Option<Seq<char>>) -> Seq<char> {
    match name {
        Some(known) => match extension_of(known) {
            Some(extension) => media_type(lowered(extension)),
            None => "application/octet-stream"@,
        },
        None => "application/octet-stream"@,
    }
}

/// The extension of a file name.
pub fn extension(name: &str) -> (r: Option<&str>)
    ensures
        r is Some <==> extension_of(name@) is Some,
        r matches Some(found) ==> found@ == extension_of(name@)->0,
{
    match rfind(name, '.') {
        Some(i) => {
            if i == 0 {
                None
            } else {
                assert(name@.subrange(i + 1, name@.len() as int) =~= name@.skip(i + 1));
                let length = name.unicode_len();
                Some(name.substring_char(i + 1, length))
            }
        },
        None => None,
    }
}

/// The media type of a file, by its name.
pub fn mime_for_name(name: &Option<String>) -> (r: &'static str)
    ensures
        r@ == media_type_of(view_of(*name)),
{
    let known: &str = match name {
        Some(known) => known,
        None => {
            return "application/octet-stream";
        },
    };
    match extension(known) {
        Some(found) => {
            if same_lowered(found, "mp4") || same_lowered(found, "m4v") {
                "video/mp4"
            } else if same_lowered(found, "mpeg") || same_lowered(found, "mpg") {
                "video/mpeg"
            } else if same_lowered(found, "mov") {
                "video/quicktime"
            } else if same_lowered(found, "webm") {
                "video/webm"
            } else {
                "application/octet-stream"
            }
        },
        None => "application/octet-stream",
    }
}

/// The media type of a file, by the file name that its path has on this
/// machine.
pub fn mime_for_path(path: &str) -> (r: &'static str)
    ensures
        portable(path@) ==> r@ == media_type_of(file_name_of(path@)),
        exists|name: Option<Seq<char>>| #[trigger]
            may_be_file_name(path@, name) && r@ == media_type_of(name),
{
    let name = file_name(path);
    proof {
        if portable(path@) {
            law_portable_paths_have_one_name(path@, view_of(name));
        }
    }
    mime_for_name(&name)
}

/// Whether a text is nothing but white space.
pub open spec fn blank(s: Seq<char>) -> bool {
    trimmed(s, white()).len() == 0
}

/// The prompt of a request: the brief, and after it the user's own
/// instruction without the white space around it, unless that is blank.
pub open spec fn prompt_with(extra: Option<Seq<char>>) -> Seq<char> {
    match extra {
        Some(text) if !blank(text) => BRIEF@ + "\n\nExtra instruction: "@ + trimmed(text, white()),
        _ => BRIEF@,
    }
}

/// The prompt of a request.
pub fn build_prompt(extra: Option<&str>) -> (r: String)
    ensures
        r@ == prompt_with(match extra {
            Some(text) => Some(text@),
            None => None,
        }),
{
    let mut prompt = BRIEF.to_owned();
    if let Some(text) = extra {
        let instruction = trim(text, Cut::White);
        if !instruction.is_empty() {
            prompt.append("\n\nExtra instruction: ");
            prompt.append(instruction);
        }
    }
    prompt
}

/// What is wrong with the options of a run, if anything. The first complaint
/// of this order is made. `temperature_in_range` says whether the temperature
/// is a finite number from 0 to 2, and `input_is_file` whether the input is
/// the path of a file.
pub open spec fn cli_problem(
    cli: Cli<Seq<char>, Json>,
    temperature_in_range: bool,
    input_is_file: bool,
) -> Option<Seq<char>> {
    if blank(cli.input) {
        Some("input is required"@)
    } else if cli.max_output_tokens == 0 {
        Some("--max-output-tokens must be greater than 0"@)
    } else if !temperature_in_range {
        Some("--temperature must be between 0 and 2"@)
    } else if !url_like(cli.input) && !input_is_file {
        Some("input must be a local file or http(s) URL: "@ + cli.input)
    } else {
        None
    }
}

/// Checks the options of a run.
pub fn validate_cli(
    cli: &Cli<String, Value>,
    temperature_in_range: bool,
    input_is_file: bool,
) -> (r: Result<(), String>)
    ensures
        r is Ok <==> cli_problem(cli@, temperature_in_range, input_is_file) is None,
        r matches Err(message) ==> message@ == cli_problem(
            cli@,
            temperature_in_range,
            input_is_file,
        )->0,
{
    if trim(&cli.input, Cut::White).is_empty() {
        return Err("input is required".to_owned());
    }
    if cli.max_output_tokens == 0 {
        return Err("--max-output-tokens must be greater than 0".to_owned());
    }
    if !temperature_in_range {
        return Err("--temperature must be between 0 and 2".to_owned());
    }
    if !is_url(&cli.input) && !input_is_file {
        return Err(
            "input must be a local file or http(s) URL: ".to_owned().concat(&cli.input),
        );
    }
    Ok(())
}

/// The file that holds the secret `name`.
pub open spec fn secret_path_of(name: Seq<char>) -> Seq<char> {
    "/run/secrets/"@ + name
}

/// A secret without the white space around it, unless it is missing or blank.
pub open spec fn usable(value: Option<Seq<char>>) -> Option<Seq<char>> {
    match value {
        Some(text) if !blank(text) => Some(trimmed(text, white())),
        _ => None,
    }
}

/// The secret `name`: what the environment holds, or else what the secret's
/// file holds, or else a complaint.
pub open spec fn secret(
    name: Seq<char>,
    in_environment: Option<Seq<char>>,
    in_file: Option<Seq<char>>,
) -> Result<Seq<char>, Seq<char>> {
    match usable(in_environment) {
        Some(value) => Ok(value),
        None => match usable(in_file) {
            Some(value) => Ok(value),
            None => Err(name + " missing; set $"@ + name + " or /run/secrets/"@ + name),
        },
    }
}

/// The file that holds the secret `name`.
pub fn secret_path(name: &str) -> (r: String)
    ensures
        r@ == secret_path_of(name@),
{
    "/run/secrets/".to_owned().concat(name)
}

/// A secret without the white space around it, unless it is missing or blank.
pub fn usable_secret(value: &Option<String>) -> (r: Option<String>)
    ensures
        view_of(r) == usable(view_of(*value)),
{
    match value {
        Some(text) => {
            let inner = trim(text, Cut::White);
            if inner.is_empty() {
                None
            } else {
                Some(inner.to_owned())
            }
        },
        None => None,
    }
}

/// The secret `name`, from what the environment and the secret's file hold.
pub fn read_secret(
    name: &str,
    in_environment: Option<String>,
    in_file: Option<String>,
) -> (r: Result<String, String>)
    ensures
        outcome(r) == secret(name@, view_of(in_environment), view_of(in_file)),
{
    match usable_secret(&in_environment) {
        Some(value) => Ok(value),
        None => match usable_secret(&in_file) {
            Some(value) => Ok(value),
            None => Err(
                name.to_owned().concat(" missing; set $").concat(name).concat(
                    " or /run/secrets/",
                ).concat(name),
            ),
        },
    }
}

/// Upper and lower case of ASCII letters in a file name, or in a path, do not
/// change the media type.
pub proof fn law_media_type_ignores_case(text: Seq<char>, other: Seq<char>)
    requires
        lowered(text) == lowered(other),
    ensures
        media_type_of(Some(text)) == media_type_of(Some(other)),
        media_type_of(file_name_of(text)) == media_type_of(file_name_of(other)),
{
    lemma_media_type_lowered(text);
    lemma_media_type_lowered(other);
    lemma_file_name_lowered(text);
    lemma_file_name_lowered(other);
}

/// A file name has the media type of that name in lower case.
proof fn lemma_media_type_lowered(name: Seq<char>)
    ensures
        media_type_of(Some(lowered(name))) == media_type_of(Some(name)),
{
    lemma_last_position_lowered(name, '.');
    lemma_last_position(name, '.');
    if last_position(name, '.') is Some {
        let i = last_position(name, '.')->0;
        assert(lowered(name).skip(i + 1) =~= lowered(name.skip(i + 1)));
        law_lowered_twice(name.skip(i + 1));
    }
}

/// The file name of a path has the media type of the file name of that path in
/// lower case.
proof fn lemma_file_name_lowered(path: Seq<char>)
    ensures
        media_type_of(file_name_of(lowered(path))) == media_type_of(file_name_of(path)),
{
    lemma_components_lowered(path);
    let list = components(path);
    if list.len() > 0 {
        lemma_lowered_dots(list.last());
        lemma_media_type_lowered(list.last());
    }
}

/// Every prompt starts with the brief; a blank instruction adds nothing to
/// it, and the white space around an instruction does not matter.
pub proof fn law_prompt(extra: Seq<char>)
    ensures
        BRIEF@.is_prefix_of(prompt_with(Some(extra))),
        prompt_with(None) == BRIEF@,
        blank(extra) ==> prompt_with(Some(extra)) == BRIEF@,
        prompt_with(Some(trimmed(extra, white()))) == prompt_with(Some(extra)),
        !blank(extra) ==> ("\n\nExtra instruction: "@ + trimmed(extra, white())).is_suffix_of(
            prompt_with(Some(extra)),
        ),
{
    law_trimmed(extra, white());
    let prompt = prompt_with(Some(extra));
    assert(prompt.subrange(0, BRIEF@.len() as int) =~= BRIEF@);
    if !blank(extra) {
        let tail = "\n\nExtra instruction: "@ + trimmed(extra, white());
        assert(prompt.subrange(prompt.len() - tail.len(), prompt.len() as int) =~= tail);
    }
}

/// A secret that is found is not blank and has no white space around it; the
/// environment comes first, and the secret's file counts only where the
/// environment holds nothing but white space.
pub proof fn law_secret(
    name: Seq<char>,
    in_environment: Option<Seq<char>>,
    in_file: Option<Seq<char>>,
)
    ensures
        secret(name, in_environment, in_file) matches Ok(value) ==> !blank(value) && trimmed(
            value,
            white(),
        ) == value,
        usable(in_environment) is Some ==> secret(name, in_environment, in_file) == Ok::<
            Seq<char>,
            Seq<char>,
        >(trimmed(in_environment->0, white())),
        usable(in_environment) is None ==> secret(name, in_environment, in_file) == secret(
            name,
            None,
            in_file,
        ),
        secret(name, in_environment, in_file) is Err <==> usable(in_environment) is None && usable(
            in_file,
        ) is None,
{
    if in_environment is Some {
        law_trimmed(in_environment->0, white());
    }
    if in_file is Some {
        law_trimmed(in_file->0, white());
    }
}

/// What a run goes by where the user says nothing else.
pub proof fn law_defaults()
    ensures
        DEFAULT_MODEL@ == "google/gemini-2.5-flash"@,
        DEFAULT_MAX_OUTPUT_TOKENS == 4096,
        DEFAULT_TEMPERATURE@ == "1"@,
        DEFAULT_POLL_INTERVAL_SECS == 5,
        DEFAULT_MAX_WAIT_SECS == 1200,
        UNNAMED_FILE@ == "upload.bin"@,
{
}

/// The options are seen one by one, none of them changed.
pub proof fn law_options_are_seen_as_they_are(cli: Cli<String, Value>)
    ensures
        cli@.input == cli.input@,
        cli@.model == cli.model@,
        cli@.max_output_tokens == cli.max_output_tokens,
        cli@.temperature == json(cli.temperature),
        cli@.prompt == view_of(cli.prompt),
        cli@.poll_interval_secs == cli.poll_interval_secs,
        cli@.max_wait_secs == cli.max_wait_secs,
{
}

/// Web addresses are the inputs that start with `http://` or `https://`, in
/// lower case, whatever follows.
pub proof fn law_web_addresses(input: Seq<char>, rest: Seq<char>)
    ensures
        url_like(input) <==> "http://"@.is_prefix_of(input) || "https://"@.is_prefix_of(input),
        url_like("http://"@ + rest),
        url_like("https://"@ + rest),
{
    assert(("http://"@ + rest).subrange(0, "http://"@.len() as int) =~= "http://"@);
    assert(("https://"@ + rest).subrange(0, "https://"@.len() as int) =~= "https://"@);
}

/// The media type of a file goes by what follows the last `.` of its name, with
/// something before that `.`.
pub proof fn law_media_types(before: Seq<char>, extension: Seq<char>)
    requires
        before.len() > 0,
        !extension.contains('.'),
    ensures
        ({
            let name = before + "."@ + extension;
            let kind = lowered(extension);
            &&& extension_of(name) == Some(extension)
            &&& kind == "mp4"@ || kind == "m4v"@ ==> media_type_of(Some(name)) == "video/mp4"@
            &&& kind == "mpeg"@ || kind == "mpg"@ ==> media_type_of(Some(name)) == "video/mpeg"@
            &&& kind == "mov"@ ==> media_type_of(Some(name)) == "video/quicktime"@
            &&& kind == "webm"@ ==> media_type_of(Some(name)) == "video/webm"@
            &&& kind != "mp4"@ && kind != "m4v"@ && kind != "mpeg"@ && kind != "mpg"@ && kind
                != "mov"@ && kind != "webm"@ ==> media_type_of(Some(name))
                == "application/octet-stream"@
        }),
{
    reveal_strlit(".");
    reveal_strlit("mp4");
    reveal_strlit("m4v");
    reveal_strlit("mpeg");
    reveal_strlit("mpg");
    reveal_strlit("mov");
    reveal_strlit("webm");
    let name = before + "."@ + extension;
    let at = before.len() as int;
    lemma_last_position(name, '.');
    assert(name[at] == '.');
    assert forall|j: int| at < j < name.len() implies #[trigger] name[j] != '.' by {
        assert(name[j] == extension[j - at - 1]);
        assert(extension.contains(extension[j - at - 1]));
    }
    assert(last_position(name, '.') == Some(at));
    assert(name.skip(at + 1) =~= extension);
    assert("mp4"@[1] == 'p' && "m4v"@[1] == '4' && "mpg"@[2] == 'g' && "mp4"@[2] == '4');
    assert("mov"@[1] == 'o' && "mpeg"@[1] == 'p' && "webm"@[1] == 'e');
}

/// A file without a name, and one whose name has no `.` but perhaps its first
/// character, has no extension and is of no known media type.
pub proof fn law_media_type_without_extension(name: Seq<char>)
    requires
        forall|i: int| 0 < i < name.len() ==> #[trigger] name[i] != '.',
    ensures
        extension_of(name) is None,
        media_type_of(Some(name)) == "application/octet-stream"@,
        media_type_of(None) == "application/octet-stream"@,
{
    lemma_last_position(name, '.');
}

/// A text is blank where each of its characters is white space.
pub proof fn law_blank(s: Seq<char>)
    ensures
        blank(s) <==> forall|i: int| 0 <= i < s.len() ==> white().contains(#[trigger] s[i]),
{
    let around = law_trimmed_is_the_middle(s, white());
    let rest = trimmed(s, white());
    if blank(s) {
        assert forall|i: int| 0 <= i < s.len() implies white().contains(#[trigger] s[i]) by {
            if i < around.0.len() {
                assert(s[i] == around.0[i]);
            } else {
                assert(s[i] == around.1[i - around.0.len()]);
            }
        }
    } else {
        assert(s[around.0.len() as int] == rest[0]);
    }
}

/// The prompt is the brief. An instruction that is not blank follows it, as it
/// is but for the white space around it.
pub proof fn law_prompt_text(extra: Seq<char>)
    ensures
        prompt_with(None)
            == "Create a detailed video recreation brief from this video. Return only the brief text, not JSON. Include scene/timestamp notes, camera framing and motion, subjects and actions, on-screen text, audio or spoken content, pacing, transitions, visual style, and enough concrete detail to recreate the same video in another AI video tool."@,
        blank(extra) ==> prompt_with(Some(extra)) == prompt_with(None),
        !blank(extra) ==> prompt_with(Some(extra)) == prompt_with(None)
            + "\n\nExtra instruction: "@ + trimmed(extra, white()),
{
}

/// Options are in order where the input is not blank, an answer may have a
/// token, the temperature is in range, and the input is a web address or a
/// file. Otherwise the first of these that fails is complained of.
pub proof fn law_options_in_order(cli: Cli<Seq<char>, Json>, in_range: bool, is_file: bool)
    ensures
        ({
            let problem = cli_problem(cli, in_range, is_file);
            let named = !(forall|i: int|
                0 <= i < cli.input.len() ==> white().contains(#[trigger] cli.input[i]));
            let known = "http://"@.is_prefix_of(cli.input) || "https://"@.is_prefix_of(cli.input)
                || is_file;
            &&& problem is None <==> named && cli.max_output_tokens >= 1 && in_range && known
            &&& !named ==> problem == Some("input is required"@)
            &&& named && cli.max_output_tokens == 0 ==> problem == Some(
                "--max-output-tokens must be greater than 0"@,
            )
            &&& named && cli.max_output_tokens >= 1 && !in_range ==> problem == Some(
                "--temperature must be between 0 and 2"@,
            )
            &&& named && cli.max_output_tokens >= 1 && in_range && !known ==> problem == Some(
                "input must be a local file or http(s) URL: "@ + cli.input,
            )
        }),
{
    law_blank(cli.input);
}

/// A secret is what the environment holds, or else what the secret's file under
/// `/run/secrets` holds, without the white space around it; what is blank does
/// not count. Where neither counts, the complaint names the secret.
pub proof fn law_secret_text(name: Seq<char>, value: Seq<char>, other: Option<Seq<char>>)
    ensures
        secret_path_of(name) == "/run/secrets/"@ + name,
        usable(None) is None,
        blank(value) ==> usable(Some(value)) is None,
        !blank(value) ==> usable(Some(value)) == Some(trimmed(value, white())),
        !blank(value) ==> secret(name, Some(value), other) == Ok::<Seq<char>, Seq<char>>(
            trimmed(value, white()),
        ),
        !blank(value) ==> secret(name, None, Some(value)) == Ok::<Seq<char>, Seq<char>>(
            trimmed(value, white()),
        ),
        blank(value) ==> secret(name, Some(value), other) == secret(name, None, other),
        blank(value) ==> secret(name, other, Some(value)) == secret(name, other, None),
        secret(name, None, None) == Err::<Seq<char>, Seq<char>>(
            name + " missing; set $"@ + name + " or /run/secrets/"@ + name,
        ),
{
}

} // verus!
