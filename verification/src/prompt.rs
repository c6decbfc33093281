//! The prompt composer: from the settings of a session to the request
//! that asks the generative model for an image prompt.

use crate::text::{is_blank, owned, str_eq, trim, trimmed};
use vstd::prelude::*;
use vstd::string::*;

verus! {

/// A handle on a generative model, known by its name.
#[derive(Debug)]
pub struct GenerativeModel {
    model_name: String,
}

impl GenerativeModel {
    /// The name of the model.
    pub closed spec fn spec_model_name(&self) -> Seq<char> {
        self.model_name@
    }

    /// A handle on the model of the given name.
    pub fn new(model_name: &str) -> (r: Self)
        ensures
            r.spec_model_name() == model_name@,
    {
        Self { model_name: owned(model_name) }
    }

    /// The name of the model.
    pub fn model_name(&self) -> (r: &str)
        ensures
            r@ == self.spec_model_name(),
    {
        self.model_name.as_str()
    }
}

/// The model that composes image prompts.
pub const PROMPT_MODEL: &'static str = "gemini-2.0-pro-exp-02-05";

/// The treatment plan that stands in for an empty one at autism level "Level 1".
pub const LEVEL_1_PLAN: &'static str = "Develop social communication skills and manage specific interests while maintaining independence.";

/// The treatment plan that stands in for an empty one at autism level "Level 2".
pub const LEVEL_2_PLAN: &'static str = "Focus on structured learning environments with visual supports and consistent routines.";

/// The treatment plan that stands in for an empty one at autism level "Level 3".
pub const LEVEL_3_PLAN: &'static str = "Provide highly structured support with simplified visual information and sensory-appropriate environments.";

/// What the prompt asks of an image in the style "Realistic".
pub const REALISTIC_STYLE: &'static str = "Create a realistic image with natural lighting and detailed textures, capturing the essence of real-world environments. Ensure the scene has a lifelike feel, with accurate light and shadow play, and textures that convey a true-to-life appearance.";

/// What the prompt asks of an image in the style "Illustration".
pub const ILLUSTRATION_STYLE: &'static str = "Create a clean and colorful illustration in the style of children's books, featuring bold outlines, vibrant colors, and a playful, engaging composition. Ensure the artwork has a soft, friendly feel with well-defined shapes and a sense of warmth and charm.";

/// What the prompt asks of an image in the style "Cartoon".
pub const CARTOON_STYLE: &'static str = "Create a friendly cartoon-style illustration with simplified shapes, bold outlines, and expressive characters. Ensure the characters have exaggerated facial expressions and dynamic poses to convey emotion and personality in a warm and inviting way.";

/// What the prompt asks of an image in the style "Watercolor".
pub const WATERCOLOR_STYLE: &'static str = "Create a soft watercolor illustration with gentle color transitions, delicate brushstrokes, and a dreamy, ethereal quality. Ensure the colors blend seamlessly, evoking a sense of warmth and tranquility.";

/// What the prompt asks of an image in the style "3D Rendering".
pub const RENDERING_STYLE: &'static str = "Create a highly detailed 3D-rendered image with realistic depth, rich textures, and natural lighting effects. Ensure accurate reflections, shadows, and materials to enhance the sense of realism and immersion.";

/// Piece 0 of the fixed text of the request.
pub const QUERY_0: &'static str = r#"Your task is to create an EXCEPTIONAL image generation prompt that will produce an educational image.
PARAMETERS:
- Difficulty: "#;

/// Piece 1 of the fixed text of the request.
pub const QUERY_1: &'static str = r#"
- Person's Age: "#;

/// Piece 2 of the fixed text of the request.
pub const QUERY_2: &'static str = r#"
- Autism Level: "#;

/// Piece 3 of the fixed text of the request.
pub const QUERY_3: &'static str = r#"
- Topic Focus: "#;

/// Piece 4 of the fixed text of the request.
pub const QUERY_4: &'static str = r#"
- Treatment Plan: "#;

/// Piece 5 of the fixed text of the request.
pub const QUERY_5: &'static str = r#"
- Image Style: "#;

/// Piece 6 of the fixed text of the request.
pub const QUERY_6: &'static str = r#"
CRITICAL PROMPT REQUIREMENTS:
1. START WITH A CLEAR CONCEPT: Begin with "A "#;

/// Piece 7 of the fixed text of the request.
pub const QUERY_7: &'static str = r#" [scene description]" or "An "#;

/// Piece 8 of the fixed text of the request.
pub const QUERY_8: &'static str = r#" of [scene description]"
2. ULTRA-SPECIFIC VISUAL DETAILS: Include at least 8-10 specific visual elements with clear positions and relationships
3. EXACT COLOR SPECIFICATION: Use precise color terminology (e.g., "pastel mint green" not just "green")
4. LIGHTING DIRECTIVES: Specify lighting quality (e.g., "soft diffused morning light", "dramatic side lighting")
5. CAMERA ANGLE & PERSPECTIVE: Include exact viewing angle (e.g., "eye-level close-up", "overhead view")
6. ARTISTIC STYLE: Reference specific art styles appropriate for autism education reflecting the selected style: "#;

/// Piece 9 of the fixed text of the request.
pub const QUERY_9: &'static str = r#"
7. EMOTIONAL TONE: Explicitly state the emotional quality (e.g., "calm", "joyful", "serene atmosphere")
8. TEXTURE SPECIFICS: Detail textures visible in the image (e.g., "soft plush texture", "smooth polished surface")
9. Realism: Incorporate elements, textures, and lighting to enhance the image's depth according to the "#;

/// Piece 10 of the fixed text of the request.
pub const QUERY_10: &'static str = r#" style.
TECHNICAL REQUIREMENTS:
- Your prompt MUST be at least 150 words long
- Include the exact phrase "high detail, high quality , 4k" in your prompt
- End with a technical directive: "8k resolution, professional "#;

/// Piece 11 of the fixed text of the request.
pub const QUERY_11: &'static str = r#", masterful composition"
- Add style-appropriate elements for "#;

/// Piece 12 of the fixed text of the request.
pub const QUERY_12: &'static str = r#" imagery
- Ensure the Image follows the "#;

/// Piece 13 of the fixed text of the request.
pub const QUERY_13: &'static str = r#" style guidelines
- Ensure the Image is not blurry or pixelated.
- Ensure the Image is not overly saturated or desaturated.
- Ensure the Image is not overly bright or dark.
- Ensure the Image is not overly contrasty or flat.
- Ensure the Image is not overly abstract or overly detailed for the selected style.
- Ensure there are no deformations or distortions.
- Ensure the image is not blurry
-Ensure maximum detail and  quality.

TOPIC INTEGRATION:
The image MUST focus primarily on ""#;

/// Piece 14 of the fixed text of the request.
pub const QUERY_14: &'static str = r#"" while incorporating elements from the treatment plan: ""#;

/// Piece 15 of the fixed text of the request.
pub const QUERY_15: &'static str = r#"".
EXAMPLE FORMAT:
"A "#;

/// Piece 16 of the fixed text of the request.
pub const QUERY_16: &'static str = r#" scene of [main subject] with [specific details]. The [subject] is positioned [exact location] with [specific posture/action]. The lighting is [specific lighting description] creating [specific effect]. The background features [specific background elements] in [specific colors]. The foreground includes [specific foreground elements]. The scene conveys a feeling of [emotional quality]. In the style of [specific artistic reference]. High detail, sharp focus, 8k resolution, professional "#;

/// Piece 17 of the fixed text of the request.
pub const QUERY_17: &'static str = r#", masterful composition."
CREATE YOUR DETAILED PROMPT NOW:"#;

/// The default treatment plan of an autism level; that of level 1 for a
/// level that has none of its own.
pub open spec fn default_plan(autism_level: Seq<char>) -> Seq<char> {
    if autism_level == "Level 2"@ {
        LEVEL_2_PLAN@
    } else if autism_level == "Level 3"@ {
        LEVEL_3_PLAN@
    } else {
        LEVEL_1_PLAN@
    }
}

/// The treatment plan that a prompt is composed with: the one given,
/// unless none is given or the one given is blank; then the default plan of
/// the autism level.
pub open spec fn effective_plan(treatment_plan: Option<Seq<char>>, autism_level: Seq<char>) -> Seq<
    char,
> {
    match treatment_plan {
        Some(plan) if !is_blank(plan) => plan,
        _ => default_plan(autism_level),
    }
}

/// The instruction that goes with an image style; empty for a style that
/// is not one of the five known ones.
pub open spec fn style_guidance(image_style: Seq<char>) -> Seq<char> {
    if image_style == "Realistic"@ {
        REALISTIC_STYLE@
    } else if image_style == "Illustration"@ {
        ILLUSTRATION_STYLE@
    } else if image_style == "Cartoon"@ {
        CARTOON_STYLE@
    } else if image_style == "Watercolor"@ {
        WATERCOLOR_STYLE@
    } else if image_style == "3D Rendering"@ {
        RENDERING_STYLE@
    } else {
        Seq::empty()
    }
}

/// `text` in lower case, as `str::to_lowercase` gives it.
pub uninterp spec fn lowercase(text: Seq<char>) -> Seq<char>;

/// Calls `str::to_lowercase`, which returns the lower-case equivalent of
/// the text as a new `String`.
#[verifier::external_body]
fn to_lowercase(text: &str) -> (r: String)
    ensures
        r@ == lowercase(text@),
{
    text.to_lowercase()
}

/// The default treatment plan of an autism level.
pub fn default_treatment_plan(autism_level: &str) -> (r: &'static str)
    ensures
        r@ == default_plan(autism_level@),
{
    if str_eq(autism_level, "Level 2") {
        LEVEL_2_PLAN
    } else if str_eq(autism_level, "Level 3") {
        LEVEL_3_PLAN
    } else {
        LEVEL_1_PLAN
    }
}

/// The treatment plan that a prompt is composed with.
pub fn effective_treatment_plan(treatment_plan: Option<&str>, autism_level: &str) -> (r: String)
    ensures
        r@ == effective_plan(treatment_plan.deep_view(), autism_level@),
{
    match treatment_plan {
        Some(plan) => {
            proof {
                crate::text::lemma_trimmed(plan@);
            }
            if trim(plan).unicode_len() == 0 {
                owned(default_treatment_plan(autism_level))
            } else {
                owned(plan)
            }
        },
        None => owned(default_treatment_plan(autism_level)),
    }
}

/// The instruction that goes with an image style.
pub fn style_instruction(image_style: &str) -> (r: &'static str)
    ensures
        r@ == style_guidance(image_style@),
{
    if str_eq(image_style, "Realistic") {
        REALISTIC_STYLE
    } else if str_eq(image_style, "Illustration") {
        ILLUSTRATION_STYLE
    } else if str_eq(image_style, "Cartoon") {
        CARTOON_STYLE
    } else if str_eq(image_style, "Watercolor") {
        WATERCOLOR_STYLE
    } else if str_eq(image_style, "3D Rendering") {
        RENDERING_STYLE
    } else {
        proof {
            reveal_strlit("");
        }
        let r = "";
        assert(r@ =~= Seq::<char>::empty());
        r
    }
}

/// The request for an image prompt, written out: the fixed text with the
/// settings, the style in lower case and the style's instruction in their
/// places.
pub open spec fn prompt_query(
    difficulty: Seq<char>,
    age: Seq<char>,
    autism_level: Seq<char>,
    topic_focus: Seq<char>,
    plan: Seq<char>,
    image_style: Seq<char>,
    lower: Seq<char>,
    instruction: Seq<char>,
) -> Seq<char> {
    QUERY_0@ + difficulty
        + QUERY_1@ + age
        + QUERY_2@ + autism_level
        + QUERY_3@ + topic_focus
        + QUERY_4@ + plan
        + QUERY_5@ + image_style
        + QUERY_6@ + lower
        + QUERY_7@ + lower
        + QUERY_8@ + instruction
        + QUERY_9@ + image_style
        + QUERY_10@ + lower
        + QUERY_11@ + image_style
        + QUERY_12@ + image_style
        + QUERY_13@ + topic_focus
        + QUERY_14@ + plan
        + QUERY_15@ + lower
        + QUERY_16@ + lower
        + QUERY_17@
}

/// Writes the request of [`prompt_query`] from its parts.
pub fn compose_query(
    difficulty: &str,
    age: &str,
    autism_level: &str,
    topic_focus: &str,
    plan: &str,
    image_style: &str,
    lower: &str,
    instruction: &str,
) -> (r: String)
    ensures
        r@ == prompt_query(
            difficulty@,
            age@,
            autism_level@,
            topic_focus@,
            plan@,
            image_style@,
            lower@,
            instruction@,
        ),
{
    let mut r = owned(QUERY_0);
    r.append(difficulty);
    r.append(QUERY_1);
    r.append(age);
    r.append(QUERY_2);
    r.append(autism_level);
    r.append(QUERY_3);
    r.append(topic_focus);
    r.append(QUERY_4);
    r.append(plan);
    r.append(QUERY_5);
    r.append(image_style);
    r.append(QUERY_6);
    r.append(lower);
    r.append(QUERY_7);
    r.append(lower);
    r.append(QUERY_8);
    r.append(instruction);
    r.append(QUERY_9);
    r.append(image_style);
    r.append(QUERY_10);
    r.append(lower);
    r.append(QUERY_11);
    r.append(image_style);
    r.append(QUERY_12);
    r.append(image_style);
    r.append(QUERY_13);
    r.append(topic_focus);
    r.append(QUERY_14);
    r.append(plan);
    r.append(QUERY_15);
    r.append(lower);
    r.append(QUERY_16);
    r.append(lower);
    r.append(QUERY_17);
    r
}

/// The request that asks the generative model for an image prompt.
///
/// An absent or blank treatment plan gives way to the default plan of the
/// autism level; the style's instruction is that of [`style_guidance`].
pub fn generate_prompt_from_options(
    difficulty: &str,
    age: &str,
    autism_level: &str,
    topic_focus: &str,
    treatment_plan: Option<&str>,
    image_style: &str,
) -> (r: String)
    ensures
        r@ == prompt_query(
            difficulty@,
            age@,
            autism_level@,
            topic_focus@,
            effective_plan(treatment_plan.deep_view(), autism_level@),
            image_style@,
            lowercase(image_style@),
            style_guidance(image_style@),
        ),
{
    let plan = effective_treatment_plan(treatment_plan, autism_level);
    let lower = to_lowercase(image_style);
    compose_query(
        difficulty,
        age,
        autism_level,
        topic_focus,
        plan.as_str(),
        image_style,
        lower.as_str(),
        style_instruction(image_style),
    )
}

/// The image prompt in the model's answer: the answer without the white
/// space around it.
pub fn prompt_from_response(response: &str) -> (r: String)
    ensures
        r@ == trimmed(response@),
{
    owned(trim(response))
}

} // verus!
