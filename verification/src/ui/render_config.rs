//! Render configurations: one style per semantic role of a prompt.

use vstd::prelude::*;
use crate::ui::color::Color;
use crate::ui::style::{StyleSheet, Styled};

verus! {

/// Color theme that can be applied to a prompt.
///
/// A renderer holds one of these and reads from it, for each part of the
/// prompt it is about to draw, the style to draw that part with.
#[derive(Debug, PartialEq, Eq)]
pub struct RenderConfig {
    /// Prefix added before prompts.
    ///
    /// Note: a space character will be added to separate the prefix
    /// and the prompt message.
    pub prompt_prefix: Styled<&'static str>,
    /// Style of the prompt message, applicable to all prompt types.
    pub prompt: StyleSheet,
    /// Render configuration of default values.
    ///
    /// Note: default values are displayed wrapped in parenthesis, e.g. (yes).
    /// Non-styled space characters are added before the default value display
    /// and after the default value, as separators.
    pub default_value: StyleSheet,
    /// Render configuration of text inputs.
    ///
    /// Note: a non-styled space character is added before the text input as
    /// a separator from the prompt message (or default value display).
    pub text_input: InputRenderConfig,
    /// Render configuration of final prompt answers (submissions).
    ///
    /// Note: a non-styled space character is added before the answer as
    /// a separator from the prompt message (or default value display).
    pub answer: StyleSheet,
    /// Render configuration for error messages.
    pub error_message: ErrorMessageRenderConfig,
}

impl RenderConfig {
    /// The theme in which no colors or attributes are applied: the prefix is
    /// the plain label `?` and every other part is the empty theme of its
    /// kind.
    pub open spec fn spec_empty() -> RenderConfig {
        RenderConfig {
            prompt_prefix: Styled::new("?"),
            prompt: StyleSheet::empty(),
            default_value: StyleSheet::empty(),
            text_input: InputRenderConfig::empty(),
            answer: StyleSheet::empty(),
            error_message: ErrorMessageRenderConfig::empty(),
        }
    }

    /// The curated theme: a green `?` prefix, cyan answers, and the curated
    /// themes of text inputs and error messages. Prompt message and default
    /// value are left unstyled.
    pub open spec fn spec_default() -> RenderConfig {
        RenderConfig {
            prompt_prefix: Styled::new("?").with_fg(Color::Green),
            prompt: StyleSheet::empty(),
            default_value: StyleSheet::empty(),
            text_input: InputRenderConfig::spec_default(),
            answer: StyleSheet::empty().with_fg(Color::Cyan),
            error_message: ErrorMessageRenderConfig::spec_default(),
        }
    }

    /// Whether every style sheet of the theme is the empty one, so that a
    /// renderer which follows the theme changes nothing of how the terminal
    /// draws.
    pub open spec fn is_unstyled(self) -> bool {
        &&& self.prompt_prefix.is_unstyled()
        &&& self.prompt == StyleSheet::empty()
        &&& self.default_value == StyleSheet::empty()
        &&& self.text_input.is_unstyled()
        &&& self.answer == StyleSheet::empty()
        &&& self.error_message.is_unstyled()
    }

    /// A renderer that follows an unstyled theme changes nothing: whichever
    /// part of the prompt it draws, the style sheet of that part applied on
    /// top of the style `base` that the terminal draws with is `base` again.
    pub proof fn lemma_unstyled_changes_nothing(config: RenderConfig, base: StyleSheet)
        requires
            config.is_unstyled(),
        ensures
            config.prompt_prefix.style.over(base) == base,
            config.prompt.over(base) == base,
            config.default_value.over(base) == base,
            config.text_input.text.over(base) == base,
            config.text_input.cursor.over(base) == base,
            config.answer.over(base) == base,
            config.error_message.prefix.style.over(base) == base,
            config.error_message.separator.over(base) == base,
            config.error_message.message.over(base) == base,
    {
        StyleSheet::lemma_empty_is_identity(base);
    }

    /// The curated theme differs from the empty theme in five places: a
    /// green prompt prefix, cyan answers, an input cursor drawn black on
    /// grey, a red error prefix and red error messages. Everywhere else, the
    /// two labels included, the two themes agree.
    pub proof fn lemma_default_differs_from_empty()
        ensures
            RenderConfig::spec_default() != RenderConfig::empty(),
            RenderConfig::spec_default().prompt_prefix.style.fg == Some(Color::Green),
            RenderConfig::spec_default().answer.fg == Some(Color::Cyan),
            RenderConfig::spec_default().text_input.cursor.bg == Some(Color::Grey),
            RenderConfig::spec_default().text_input.cursor.fg == Some(Color::Black),
            RenderConfig::spec_default().error_message.prefix.style.fg == Some(Color::Red),
            RenderConfig::spec_default().error_message.message.fg == Some(Color::Red),
            ({
                let empty = RenderConfig::empty();
                let cursor = empty.text_input.cursor.with_bg(Color::Grey).with_fg(Color::Black);
                RenderConfig::spec_default() == (RenderConfig {
                    prompt_prefix: empty.prompt_prefix.with_fg(Color::Green),
                    answer: empty.answer.with_fg(Color::Cyan),
                    text_input: InputRenderConfig { cursor, ..empty.text_input },
                    error_message: ErrorMessageRenderConfig {
                        prefix: empty.error_message.prefix.with_fg(Color::Red),
                        message: empty.error_message.message.with_fg(Color::Red),
                        ..empty.error_message
                    },
                    ..empty
                })
            }),
    {
    }

    /// RenderConfig in which no colors or attributes are applied.
    #[verifier::when_used_as_spec(spec_empty)]
    pub fn empty() -> (out: RenderConfig)
        ensures
            out == RenderConfig::spec_empty(),
            out.is_unstyled(),
            out.prompt_prefix.content@ == "?"@,
            out.error_message.prefix.content@ == "#"@,
    {
        RenderConfig {
            prompt_prefix: Styled::new("?"),
            prompt: StyleSheet::empty(),
            default_value: StyleSheet::empty(),
            text_input: InputRenderConfig::empty(),
            error_message: ErrorMessageRenderConfig::empty(),
            answer: StyleSheet::empty(),
        }
    }

    /// Sets the prompt prefix. Every other field is kept.
    pub fn with_prompt_prefix(self, prompt_prefix: Styled<&'static str>) -> (out: RenderConfig)
        ensures
            out == (RenderConfig { prompt_prefix, ..self }),
    {
        RenderConfig { prompt_prefix, ..self }
    }

    /// Sets the style of the prompt message. Every other field is kept.
    pub fn with_prompt(self, prompt: StyleSheet) -> (out: RenderConfig)
        ensures
            out == (RenderConfig { prompt, ..self }),
    {
        RenderConfig { prompt, ..self }
    }

    /// Sets the render configuration of text inputs. Every other field is
    /// kept.
    pub fn with_text_input(self, text_input: InputRenderConfig) -> (out: RenderConfig)
        ensures
            out == (RenderConfig { text_input, ..self }),
    {
        RenderConfig { text_input, ..self }
    }

    /// Sets the style of default values. Every other field is kept.
    pub fn with_default_value(self, default_value: StyleSheet) -> (out: RenderConfig)
        ensures
            out == (RenderConfig { default_value, ..self }),
    {
        RenderConfig { default_value, ..self }
    }

    /// Sets the style of final answers. Every other field is kept.
    pub fn with_answer(self, answer: StyleSheet) -> (out: RenderConfig)
        ensures
            out == (RenderConfig { answer, ..self }),
    {
        RenderConfig { answer, ..self }
    }

    /// Sets the render configuration of error messages. Every other field is
    /// kept.
    pub fn with_error_message(self, error_message: ErrorMessageRenderConfig) -> (out: RenderConfig)
        ensures
            out == (RenderConfig { error_message, ..self }),
    {
        RenderConfig { error_message, ..self }
    }
}

impl Clone for RenderConfig {
    /// A copy that is equal to `self` in every field.
    fn clone(&self) -> (out: RenderConfig)
        ensures
            out == *self,
    {
        RenderConfig {
            prompt_prefix: Styled {
                content: self.prompt_prefix.content,
                style: self.prompt_prefix.style,
            },
            prompt: self.prompt,
            default_value: self.default_value,
            text_input: self.text_input.clone(),
            answer: self.answer,
            error_message: self.error_message.clone(),
        }
    }
}

impl Default for RenderConfig {
    /// The curated theme.
    fn default() -> (out: RenderConfig)
        ensures
            out == RenderConfig::spec_default(),
            out.prompt_prefix.content@ == "?"@,
            out.prompt_prefix.style == (StyleSheet { fg: Some(Color::Green), ..StyleSheet::empty() }),
            out.prompt == StyleSheet::empty(),
            out.default_value == StyleSheet::empty(),
            out.text_input == InputRenderConfig::spec_default(),
            out.answer == (StyleSheet { fg: Some(Color::Cyan), ..StyleSheet::empty() }),
            out.error_message == ErrorMessageRenderConfig::spec_default(),
            !out.is_unstyled(),
    {
        RenderConfig {
            prompt_prefix: Styled::new("?").with_fg(Color::Green),
            prompt: StyleSheet::empty(),
            default_value: StyleSheet::empty(),
            text_input: InputRenderConfig::default(),
            error_message: ErrorMessageRenderConfig::default(),
            answer: StyleSheet::empty().with_fg(Color::Cyan),
        }
    }
}

/// Render configuration for text inputs.
///
/// All text will be rendered with the `text` style sheet applied, except for
/// the one character behind the cursor, which will have the `cursor` style
/// sheet applied.
#[derive(Debug, PartialEq, Eq)]
pub struct InputRenderConfig {
    /// Text style.
    pub text: StyleSheet,
    /// Cursor style.
    pub cursor: StyleSheet,
}

impl InputRenderConfig {
    /// The theme in which neither text nor cursor is styled.
    pub open spec fn spec_empty() -> InputRenderConfig {
        InputRenderConfig { text: StyleSheet::empty(), cursor: StyleSheet::empty() }
    }

    /// The curated theme: plain text, and a cursor drawn black on grey.
    pub open spec fn spec_default() -> InputRenderConfig {
        InputRenderConfig {
            text: StyleSheet::empty(),
            cursor: StyleSheet::empty().with_bg(Color::Grey).with_fg(Color::Black),
        }
    }

    /// Whether both style sheets are the empty one.
    pub open spec fn is_unstyled(self) -> bool {
        self.text == StyleSheet::empty() && self.cursor == StyleSheet::empty()
    }

    /// Render configuration in which no colors or attributes are applied.
    #[verifier::when_used_as_spec(spec_empty)]
    pub fn empty() -> (out: InputRenderConfig)
        ensures
            out == InputRenderConfig::spec_empty(),
            out.text == StyleSheet::empty(),
            out.cursor == StyleSheet::empty(),
            out.text == out.cursor,
    {
        InputRenderConfig { text: StyleSheet::empty(), cursor: StyleSheet::empty() }
    }

    /// Sets the text stylesheet. The cursor stylesheet is kept.
    pub fn with_text(self, text: StyleSheet) -> (out: InputRenderConfig)
        ensures
            out == (InputRenderConfig { text, ..self }),
    {
        InputRenderConfig { text, ..self }
    }

    /// Sets the cursor stylesheet. The text stylesheet is kept.
    pub fn with_cursor(self, cursor: StyleSheet) -> (out: InputRenderConfig)
        ensures
            out == (InputRenderConfig { cursor, ..self }),
    {
        InputRenderConfig { cursor, ..self }
    }
}

impl Clone for InputRenderConfig {
    /// A copy that is equal to `self` in every field.
    fn clone(&self) -> (out: InputRenderConfig)
        ensures
            out == *self,
    {
        InputRenderConfig { text: self.text, cursor: self.cursor }
    }
}

impl Default for InputRenderConfig {
    /// The curated theme.
    fn default() -> (out: InputRenderConfig)
        ensures
            out == InputRenderConfig::spec_default(),
            out.text == StyleSheet::empty(),
            out.cursor == (StyleSheet {
                fg: Some(Color::Black),
                bg: Some(Color::Grey),
                ..StyleSheet::empty()
            }),
            out.text != out.cursor,
    {
        InputRenderConfig {
            text: StyleSheet::empty(),
            cursor: StyleSheet::empty().with_bg(Color::Grey).with_fg(Color::Black),
        }
    }
}

/// Render configuration for error messages.
#[derive(Debug, PartialEq, Eq)]
pub struct ErrorMessageRenderConfig {
    /// Prefix style.
    pub prefix: Styled<&'static str>,
    /// Separator style.
    ///
    /// Note: This separator is a space character. It might be useful to
    /// style it if you want to set a background color for error messages.
    pub separator: StyleSheet,
    /// Message style.
    pub message: StyleSheet,
}

impl ErrorMessageRenderConfig {
    /// The theme with the plain label `#` as prefix and nothing styled.
    pub open spec fn spec_empty() -> ErrorMessageRenderConfig {
        ErrorMessageRenderConfig {
            prefix: Styled::new("#"),
            separator: StyleSheet::empty(),
            message: StyleSheet::empty(),
        }
    }

    /// The curated theme: a red `#` prefix, a plain separator and a red
    /// message.
    pub open spec fn spec_default() -> ErrorMessageRenderConfig {
        ErrorMessageRenderConfig {
            prefix: Styled::new("#").with_fg(Color::Red),
            separator: StyleSheet::empty(),
            message: StyleSheet::empty().with_fg(Color::Red),
        }
    }

    /// Whether prefix, separator and message all have the empty style sheet.
    pub open spec fn is_unstyled(self) -> bool {
        &&& self.prefix.is_unstyled()
        &&& self.separator == StyleSheet::empty()
        &&& self.message == StyleSheet::empty()
    }

    /// Render configuration in which no colors or attributes are applied.
    #[verifier::when_used_as_spec(spec_empty)]
    pub fn empty() -> (out: ErrorMessageRenderConfig)
        ensures
            out == ErrorMessageRenderConfig::spec_empty(),
            out.prefix.content@ == "#"@,
            out.prefix.style == StyleSheet::empty(),
            out.separator == StyleSheet::empty(),
            out.message == StyleSheet::empty(),
    {
        ErrorMessageRenderConfig {
            prefix: Styled::new("#"),
            separator: StyleSheet::empty(),
            message: StyleSheet::empty(),
        }
    }

    /// Sets the prefix. Separator and message stylesheets are kept.
    pub fn with_prefix(self, prefix: Styled<&'static str>) -> (out: ErrorMessageRenderConfig)
        ensures
            out == (ErrorMessageRenderConfig { prefix, ..self }),
    {
        ErrorMessageRenderConfig { prefix, ..self }
    }

    /// Sets the separator stylesheet. Prefix and message stylesheet are kept.
    ///
    /// Note: This separator is a space character. It might be useful to
    /// style it if you want to set a background color for error messages.
    pub fn with_separator(self, separator: StyleSheet) -> (out: ErrorMessageRenderConfig)
        ensures
            out == (ErrorMessageRenderConfig { separator, ..self }),
    {
        ErrorMessageRenderConfig { separator, ..self }
    }

    /// Sets the message stylesheet. Prefix and separator stylesheet are kept.
    pub fn with_message(self, message: StyleSheet) -> (out: ErrorMessageRenderConfig)
        ensures
            out == (ErrorMessageRenderConfig { message, ..self }),
    {
        ErrorMessageRenderConfig { message, ..self }
    }
}

impl Clone for ErrorMessageRenderConfig {
    /// A copy that is equal to `self` in every field.
    fn clone(&self) -> (out: ErrorMessageRenderConfig)
        ensures
            out == *self,
    {
        ErrorMessageRenderConfig {
            prefix: Styled { content: self.prefix.content, style: self.prefix.style },
            separator: self.separator,
            message: self.message,
        }
    }
}

impl Default for ErrorMessageRenderConfig {
    /// The curated theme.
    fn default() -> (out: ErrorMessageRenderConfig)
        ensures
            out == ErrorMessageRenderConfig::spec_default(),
            out.prefix.content@ == "#"@,
            out.prefix.style == (StyleSheet { fg: Some(Color::Red), ..StyleSheet::empty() }),
            out.separator == StyleSheet::empty(),
            out.message == (StyleSheet { fg: Some(Color::Red), ..StyleSheet::empty() }),
    {
        ErrorMessageRenderConfig {
            prefix: Styled::new("#").with_fg(Color::Red),
            separator: StyleSheet::empty(),
            message: StyleSheet::empty().with_fg(Color::Red),
        }
    }
}

} // verus!
