//! What is asked of the describing and the detail-extracting model, and
//! the tolerant reading of what they answer.

use crate::payload::{base64_encode, base64_len, base64_text};
use crate::text::{owned, split, split_on, trim, trimmed};
use crate::verdict::Source;
use vstd::prelude::*;
use vstd::string::*;

verus! {

/// The error that `serde_json` reports for text it cannot read.
#[verifier::external_type_specification]
#[verifier::external_body]
pub struct ExJsonError(serde_json::Error);

/// The list of strings that `text` is the JSON of; `None` for any other
/// text.
pub uninterp spec fn json_string_list(text: Seq<char>) -> Option<Seq<Seq<char>>>;

/// Calls `serde_json::from_str` for a `Vec<String>`. The crate returns the
/// list when the whole text is one JSON array of strings and an error
/// otherwise; the text alone decides.
#[verifier::external_body]
fn parse_string_list(text: &str) -> (r: Result<Vec<String>, serde_json::Error>)
    ensures
        match r {
            Ok(list) => json_string_list(text@) == Some(list.deep_view()),
            Err(_) => json_string_list(text@) is None,
        },
{
    serde_json::from_str::<Vec<String>>(text)
}

/// The most key details that are taken from the lines of an answer.
pub const MAX_LINE_DETAILS: usize = 15;

/// What the describing model is told when there is no image.
pub const NO_IMAGE_FOR_DESCRIPTION: &'static str =
    "Error: No image provided. Please make sure an image is generated or uploaded first.";

/// The one detail that stands for a missing image.
pub const NO_IMAGE_DETAIL: &'static str = "Error: No image provided";

/// The failure reported when an answer holds no text.
pub const NO_TEXT: &'static str = "Error: No text response from Gemini API";

/// The failure reported when an answer holds no candidate.
pub const NO_CANDIDATES: &'static str = "Error: Unexpected API response format (no candidates)";

/// The failure reported when the first candidate of an answer holds no part.
pub const NO_PARTS: &'static str = "Error: Unexpected API response format (no parts)";

/// The media type under which an image is sent.
pub const IMAGE_MIME: &'static str = "image/png";

/// Piece 0 of the fixed text that asks for a description.
pub const DESCRIBE_0: &'static str = r#"
            You are an expert educator specializing in teaching users with autism.
            Please provide a detailed description of this image that was generated based on the prompt:
            ""#;

/// Piece 1 of the fixed text that asks for a description.
pub const DESCRIBE_1: &'static str = r#""
            The image is intended for a person with autism, focusing on the topic: ""#;

/// Piece 2 of the fixed text that asks for a description.
pub const DESCRIBE_2: &'static str = r#"" at a "#;

/// Piece 3 of the fixed text that asks for a description.
pub const DESCRIBE_3: &'static str = r#" difficulty level.
            In your description:
            1. List all key objects, characters, and elements present in the image
            2. Describe colors, shapes, positions, and relationships between elements
            3. Note any emotions, actions, or interactions depicted
            4. Highlight details that would be important for the child to notice
            5. Organize your description in a structured, clear way
            6. Dont generate a certain style , use the topic of focus to guide your descriptions
            Your description will be used as a reference to evaluate the child's observations,
            so please be comprehensive but focus on observable details rather than interpretations.
            "#;

/// Piece 0 of the fixed text that asks for key details.
pub const EXTRACT_0: &'static str = r#"
            You are analyzing an educational image created for a person with autism, based on the prompt: ""#;

/// Piece 1 of the fixed text that asks for key details.
pub const EXTRACT_1: &'static str = r#"".
            The image focuses on the topic: ""#;

/// Piece 2 of the fixed text that asks for key details.
pub const EXTRACT_2: &'static str = r#"".
            Please extract a list of unique key details that a person might identify in this image minimum 5 , max 15 depending on the image.
            Each detail should be a simple, clear phrase describing one observable element.
            Focus on concrete, visible elements rather than abstract concepts.
            Format your response as a JSON array of strings, each representing one key detail.
            Example format: ["red ball on the grass", "smiling girl with brown hair", "blue sky with clouds"]
            Ensure each detail is:
            1. Directly observable in the image
            2. Unique (not a duplicate)
            3. Described in simple, concrete language
            4. Relevant to what a person would notice
            5. Avoid duplicates
            "#;

/// An image and the question about it, as they go to a model.
#[derive(Debug)]
pub struct ImageQuery {
    /// The media type of the image.
    pub mime_type: String,
    /// The image, as base64 text.
    pub data: String,
    /// The question.
    pub text: String,
}

/// A list of key details and how it was read from the model's answer.
#[derive(Debug)]
pub struct DetailList {
    pub source: Source,
    pub details: Vec<String>,
}

/// The text that asks for the reference description of an image.
pub open spec fn description_query_text(
    prompt: Seq<char>,
    topic_focus: Seq<char>,
    difficulty: Seq<char>,
) -> Seq<char> {
    DESCRIBE_0@ + prompt + DESCRIBE_1@ + topic_focus + DESCRIBE_2@ + difficulty + DESCRIBE_3@
}

/// The text that asks for the key details of an image.
pub open spec fn key_details_query_text(prompt: Seq<char>, topic_focus: Seq<char>) -> Seq<char> {
    EXTRACT_0@ + prompt + EXTRACT_1@ + topic_focus + EXTRACT_2@
}

/// The key detail that a line of an answer holds: a line that, trimmed,
/// begins with `-` or `*` holds what follows the mark, trimmed; any other
/// line holds none.
pub open spec fn bullet_item(line: Seq<char>) -> Option<Seq<char>> {
    let t = trimmed(line);
    if t.len() > 0 && (t[0] == '-' || t[0] == '*') {
        Some(trimmed(t.subrange(1, t.len() as int)))
    } else {
        None
    }
}

/// The key details that the lines of an answer hold, in the order of the
/// lines.
pub open spec fn bullet_items(lines: Seq<Seq<char>>) -> Seq<Seq<char>>
    decreases lines.len(),
{
    if lines.len() == 0 {
        Seq::empty()
    } else {
        match bullet_item(lines.last()) {
            Some(item) => bullet_items(lines.drop_last()).push(item),
            None => bullet_items(lines.drop_last()),
        }
    }
}

/// The key details that stand in when an answer holds none.
pub open spec fn default_details() -> Seq<Seq<char>> {
    seq!["object in image"@, "color"@, "shape"@, "background"@]
}

/// The key details read from an answer `text`, where `parsed` is the list
/// that the trimmed answer is the JSON of, if it is that of any. The first
/// of these that applies: the list itself; the details that the lines of
/// the trimmed answer hold, the first fifteen of them; the default details.
pub open spec fn key_details_of(text: Seq<char>, parsed: Option<Seq<Seq<char>>>) -> (
    Source,
    Seq<Seq<char>>,
) {
    match parsed {
        Some(list) => (Source::Structured, list),
        None => {
            let items = bullet_items(split_on(trimmed(text), '\n'));
            if items.len() > MAX_LINE_DETAILS {
                (Source::LineExtracted, items.take(MAX_LINE_DETAILS as int))
            } else if items.len() > 0 {
                (Source::LineExtracted, items)
            } else {
                (Source::Default, default_details())
            }
        },
    }
}

/// The text that asks for the reference description of an image.
pub fn description_query(prompt: &str, topic_focus: &str, difficulty: &str) -> (r: String)
    ensures
        r@ == description_query_text(prompt@, topic_focus@, difficulty@),
{
    let mut r = owned(DESCRIBE_0);
    r.append(prompt);
    r.append(DESCRIBE_1);
    r.append(topic_focus);
    r.append(DESCRIBE_2);
    r.append(difficulty);
    r.append(DESCRIBE_3);
    r
}

/// The text that asks for the key details of an image.
pub fn key_details_query(prompt: &str, topic_focus: &str) -> (r: String)
    ensures
        r@ == key_details_query_text(prompt@, topic_focus@),
{
    let mut r = owned(EXTRACT_0);
    r.append(prompt);
    r.append(EXTRACT_1);
    r.append(topic_focus);
    r.append(EXTRACT_2);
    r
}

/// What goes to the describing model for an image, or the failure to
/// report when there is no image.
pub fn description_request(
    image_input: Option<Vec<u8>>,
    prompt: &str,
    difficulty: &str,
    topic_focus: &str,
) -> (r: Result<ImageQuery, String>)
    requires
        image_input matches Some(bytes) ==> base64_len(bytes@.len()) <= usize::MAX,
    ensures
        match image_input {
            Some(bytes) => {
                &&& r matches Ok(query)
                &&& query.mime_type@ == IMAGE_MIME@
                &&& query.data@ == base64_text(bytes@)
                &&& query.text@ == description_query_text(prompt@, topic_focus@, difficulty@)
            },
            None => r matches Err(failure) && failure@ == NO_IMAGE_FOR_DESCRIPTION@,
        },
{
    match image_input {
        None => Err(owned(NO_IMAGE_FOR_DESCRIPTION)),
        Some(bytes) => Ok(
            ImageQuery {
                mime_type: owned(IMAGE_MIME),
                data: base64_encode(bytes.as_slice()),
                text: description_query(prompt, topic_focus, difficulty),
            },
        ),
    }
}

/// What goes to the detail-extracting model for an image. Without an image
/// nothing is asked, and the list to hand on holds the one detail that says
/// so.
pub fn key_details_request(image_input: Option<Vec<u8>>, prompt: &str, topic_focus: &str) -> (r:
    Result<ImageQuery, Vec<String>>)
    requires
        image_input matches Some(bytes) ==> base64_len(bytes@.len()) <= usize::MAX,
    ensures
        match image_input {
            Some(bytes) => {
                &&& r matches Ok(query)
                &&& query.mime_type@ == IMAGE_MIME@
                &&& query.data@ == base64_text(bytes@)
                &&& query.text@ == key_details_query_text(prompt@, topic_focus@)
            },
            None => r matches Err(list) && list.deep_view() == seq![NO_IMAGE_DETAIL@],
        },
{
    match image_input {
        None => {
            let mut list: Vec<String> = Vec::new();
            list.push(owned(NO_IMAGE_DETAIL));
            assert(list.deep_view() =~= seq![NO_IMAGE_DETAIL@]);
            Err(list)
        },
        Some(bytes) => Ok(
            ImageQuery {
                mime_type: owned(IMAGE_MIME),
                data: base64_encode(bytes.as_slice()),
                text: key_details_query(prompt, topic_focus),
            },
        ),
    }
}

/// The key detail that a line holds: see [`bullet_item`].
pub fn line_detail(line: &str) -> (r: Option<String>)
    ensures
        r.deep_view() == bullet_item(line@),
{
    let t = trim(line);
    let n = t.unicode_len();
    if n == 0 {
        return None;
    }
    let mark = t.get_char(0);
    if mark == '-' || mark == '*' {
        Some(owned(trim(t.substring_char(1, n))))
    } else {
        None
    }
}

/// The key details that the lines of `text` hold, in the order of the
/// lines.
pub fn line_details(text: &str) -> (r: Vec<String>)
    ensures
        r.deep_view() == bullet_items(split_on(text@, '\n')),
{
    let lines = split(text, '\n');
    let ghost all = lines.deep_view();
    let mut r: Vec<String> = Vec::new();
    let mut i: usize = 0;
    assert(all.take(0) =~= Seq::empty());
    assert(r.deep_view() =~= Seq::empty());
    while i < lines.len()
        invariant
            i <= lines.len(),
            all == lines.deep_view(),
            r.deep_view() == bullet_items(all.take(i as int)),
        decreases lines.len() - i,
    {
        let line: &str = lines[i];
        proof {
            assert(all.take(i + 1).drop_last() =~= all.take(i as int));
            assert(all.take(i + 1).last() == line@);
        }
        match line_detail(line) {
            Some(item) => {
                let ghost before = r.deep_view();
                r.push(item);
                assert(r.deep_view() =~= before.push(item@));
            },
            None => {},
        }
        i += 1;
    }
    assert(all.take(lines.len() as int) =~= all);
    r
}

/// The key details read from an answer, given the list that the trimmed
/// answer is the JSON of, if it is that of any: see [`key_details_of`].
pub fn key_details_from_parse(text: &str, parsed: Option<Vec<String>>) -> (r: DetailList)
    ensures
        (r.source, r.details.deep_view()) == key_details_of(text@, parsed.deep_view()),
{
    match parsed {
        Some(list) => DetailList { source: Source::Structured, details: list },
        None => {
            let mut items = line_details(trim(text));
            if items.len() > MAX_LINE_DETAILS {
                let ghost before = items.deep_view();
                items.truncate(MAX_LINE_DETAILS);
                assert(items.deep_view() =~= before.take(MAX_LINE_DETAILS as int));
                DetailList { source: Source::LineExtracted, details: items }
            } else if items.len() > 0 {
                DetailList { source: Source::LineExtracted, details: items }
            } else {
                let mut details: Vec<String> = Vec::new();
                details.push(owned("object in image"));
                details.push(owned("color"));
                details.push(owned("shape"));
                details.push(owned("background"));
                assert(details.deep_view() =~= default_details());
                DetailList { source: Source::Default, details }
            }
        },
    }
}

/// Reads the key details from a model's answer, whatever its form: a JSON
/// array of strings is taken as it is; failing that, the lines that begin
/// with a list mark are taken, fifteen at most; failing that, the default
/// details stand in. Never fails.
pub fn parse_key_details(text: &str) -> (r: DetailList)
    ensures
        (r.source, r.details.deep_view()) == key_details_of(
            text@,
            json_string_list(trimmed(text@)),
        ),
{
    let parsed = match parse_string_list(trim(text)) {
        Ok(list) => Some(list),
        Err(_) => None,
    };
    key_details_from_parse(text, parsed)
}

/// Where the text of a model's answer stands: in the first part of the
/// first candidate.
pub enum AnswerText {
    /// The answer holds no candidate.
    NoCandidates,
    /// The first candidate holds no part.
    NoParts,
    /// The first part holds no text.
    NoText,
    /// The text.
    Text(Seq<char>),
}

/// The text of a model's answer, which arrives as candidates, each a list
/// of parts, each with or without text.
pub open spec fn answer_text(candidates: Option<Vec<Vec<Option<String>>>>) -> AnswerText {
    match candidates {
        None => AnswerText::NoCandidates,
        Some(list) => if list@.len() == 0 {
            AnswerText::NoCandidates
        } else if list@[0]@.len() == 0 {
            AnswerText::NoParts
        } else {
            match list@[0]@[0] {
                None => AnswerText::NoText,
                Some(text) => AnswerText::Text(text@),
            }
        },
    }
}

/// The reference description in a model's answer: its text, trimmed. An
/// answer without text is a failure.
pub fn description_from_response(candidates: &Option<Vec<Vec<Option<String>>>>) -> (r: Result<
    String,
    String,
>)
    ensures
        match answer_text(*candidates) {
            AnswerText::Text(text) => r matches Ok(description) && description@ == trimmed(text),
            _ => r matches Err(failure) && failure@ == NO_TEXT@,
        },
{
    match candidates {
        Some(list) => {
            if list.len() > 0 && list[0].len() > 0 {
                match &list[0][0] {
                    Some(text) => {
                        return Ok(owned(trim(text.as_str())));
                    },
                    None => {},
                }
            }
        },
        None => {},
    }
    Err(owned(NO_TEXT))
}

/// The key details in a model's answer: its text, read tolerantly. An
/// answer without candidates, parts or text is a failure, each with its
/// own message.
pub fn key_details_from_response(candidates: &Option<Vec<Vec<Option<String>>>>) -> (r: Result<
    DetailList,
    String,
>)
    ensures
        match answer_text(*candidates) {
            AnswerText::Text(text) => r matches Ok(list) && (list.source, list.details.deep_view())
                == key_details_of(text, json_string_list(trimmed(text))),
            AnswerText::NoText => r matches Err(failure) && failure@ == NO_TEXT@,
            AnswerText::NoParts => r matches Err(failure) && failure@ == NO_PARTS@,
            AnswerText::NoCandidates => r matches Err(failure) && failure@ == NO_CANDIDATES@,
        },
{
    match candidates {
        None => Err(owned(NO_CANDIDATES)),
        Some(list) => {
            if list.len() == 0 {
                Err(owned(NO_CANDIDATES))
            } else if list[0].len() == 0 {
                Err(owned(NO_PARTS))
            } else {
                match &list[0][0] {
                    Some(text) => Ok(parse_key_details(text.as_str())),
                    None => Err(owned(NO_TEXT)),
                }
            }
        },
    }
}

} // verus!
