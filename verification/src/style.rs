//! Terminal styles.

use owo_colors::OwoColorize;
use vstd::prelude::*;
use vstd::string::*;

verus! {

/// A terminal style: a color, bold face, both or neither.
#[derive(Copy, Clone, Debug, PartialEq, Eq, Structural)]
pub enum Style {
    /// No formatting.
    Plain,
    /// Bold.
    Bold,
    /// Green.
    Green,
    /// Magenta.
    Magenta,
    /// Cyan.
    Cyan,
    /// Red and bold.
    RedBold,
    /// Green and bold.
    GreenBold,
    /// Yellow and bold.
    YellowBold,
    /// Blue and bold.
    BlueBold,
    /// Magenta and bold.
    MagentaBold,
}

/// The escape sequence that ends every formatting.
pub open spec fn reset() -> Seq<char> {
    "\x1b[0m"@
}

/// Calls `owo_colors::OwoColorize::style` with `Style::new()` and displays the result: the text
/// as it is.
#[verifier::external_body]
fn plain(text: &str) -> (r: String)
    ensures
        r@ == text@,
{
    text.style(owo_colors::Style::new()).to_string()
}

/// Calls `owo_colors::OwoColorize::style` with `Style::bold` and displays the result: the escape
/// sequence for bold, the text, and the reset sequence.
#[verifier::external_body]
fn bold(text: &str) -> (r: String)
    ensures
        r@ == "\x1b[1m"@ + text@ + reset(),
{
    text.style(owo_colors::Style::new().bold()).to_string()
}

/// Calls `owo_colors::OwoColorize::style` with `Style::green` and displays the result: the escape
/// sequence for the color, the text, and the reset sequence.
#[verifier::external_body]
fn green(text: &str) -> (r: String)
    ensures
        r@ == "\x1b[32m"@ + text@ + reset(),
{
    text.style(owo_colors::Style::new().green()).to_string()
}

/// Calls `owo_colors::OwoColorize::style` with `Style::magenta` and displays the result: the
/// escape sequence for the color, the text, and the reset sequence.
#[verifier::external_body]
fn magenta(text: &str) -> (r: String)
    ensures
        r@ == "\x1b[35m"@ + text@ + reset(),
{
    text.style(owo_colors::Style::new().magenta()).to_string()
}

/// Calls `owo_colors::OwoColorize::style` with `Style::cyan` and displays the result: the escape
/// sequence for the color, the text, and the reset sequence.
#[verifier::external_body]
fn cyan(text: &str) -> (r: String)
    ensures
        r@ == "\x1b[36m"@ + text@ + reset(),
{
    text.style(owo_colors::Style::new().cyan()).to_string()
}

/// Calls `owo_colors::OwoColorize::style` with `Style::red` and `Style::bold`, and displays the
/// result: one escape sequence for the color and bold, the text, and the reset sequence.
#[verifier::external_body]
fn red_bold(text: &str) -> (r: String)
    ensures
        r@ == "\x1b[31;1m"@ + text@ + reset(),
{
    text.style(owo_colors::Style::new().red().bold()).to_string()
}

/// Calls `owo_colors::OwoColorize::style` with `Style::green` and `Style::bold`, and displays the
/// result: one escape sequence for the color and bold, the text, and the reset sequence.
#[verifier::external_body]
fn green_bold(text: &str) -> (r: String)
    ensures
        r@ == "\x1b[32;1m"@ + text@ + reset(),
{
    text.style(owo_colors::Style::new().green().bold()).to_string()
}

/// Calls `owo_colors::OwoColorize::style` with `Style::yellow` and `Style::bold`, and displays the
/// result: one escape sequence for the color and bold, the text, and the reset sequence.
#[verifier::external_body]
fn yellow_bold(text: &str) -> (r: String)
    ensures
        r@ == "\x1b[33;1m"@ + text@ + reset(),
{
    text.style(owo_colors::Style::new().yellow().bold()).to_string()
}

/// Calls `owo_colors::OwoColorize::style` with `Style::blue` and `Style::bold`, and displays the
/// result: one escape sequence for the color and bold, the text, and the reset sequence.
#[verifier::external_body]
fn blue_bold(text: &str) -> (r: String)
    ensures
        r@ == "\x1b[34;1m"@ + text@ + reset(),
{
    text.style(owo_colors::Style::new().blue().bold()).to_string()
}

/// Calls `owo_colors::OwoColorize::style` with `Style::magenta` and `Style::bold`, and displays
/// the result: one escape sequence for the color and bold, the text, and the reset sequence.
#[verifier::external_body]
fn magenta_bold(text: &str) -> (r: String)
    ensures
        r@ == "\x1b[35;1m"@ + text@ + reset(),
{
    text.style(owo_colors::Style::new().magenta().bold()).to_string()
}

impl Style {
    /// `text` as a terminal receives it in this style.
    pub open spec fn painted(self, text: Seq<char>) -> Seq<char> {
        match self {
            Style::Plain => text,
            Style::Bold => "\x1b[1m"@ + text + reset(),
            Style::Green => "\x1b[32m"@ + text + reset(),
            Style::Magenta => "\x1b[35m"@ + text + reset(),
            Style::Cyan => "\x1b[36m"@ + text + reset(),
            Style::RedBold => "\x1b[31;1m"@ + text + reset(),
            Style::GreenBold => "\x1b[32;1m"@ + text + reset(),
            Style::YellowBold => "\x1b[33;1m"@ + text + reset(),
            Style::BlueBold => "\x1b[34;1m"@ + text + reset(),
            Style::MagentaBold => "\x1b[35;1m"@ + text + reset(),
        }
    }

    /// Renders `text` in this style.
    pub fn paint(self, text: &str) -> (r: String)
        ensures
            r@ == self.painted(text@),
    {
        match self {
            Style::Plain => plain(text),
            Style::Bold => bold(text),
            Style::Green => green(text),
            Style::Magenta => magenta(text),
            Style::Cyan => cyan(text),
            Style::RedBold => red_bold(text),
            Style::GreenBold => green_bold(text),
            Style::YellowBold => yellow_bold(text),
            Style::BlueBold => blue_bold(text),
            Style::MagentaBold => magenta_bold(text),
        }
    }
}

/// The styles that test names are shown in.
#[derive(Copy, Clone, Debug, PartialEq, Eq, Structural)]
pub struct ListStyles {
    /// The style of binary IDs.
    pub binary_id: Style,
    /// The style of the last component of a test name.
    pub test_name: Style,
    /// The style of the module path in front of it.
    pub module_prefix: Style,
}

impl ListStyles {
    /// Everything plain.
    pub open spec fn plain() -> ListStyles {
        ListStyles {
            binary_id: Style::Plain,
            test_name: Style::Plain,
            module_prefix: Style::Plain,
        }
    }

    /// Everything in color.
    pub open spec fn colored() -> ListStyles {
        ListStyles {
            binary_id: Style::MagentaBold,
            test_name: Style::BlueBold,
            module_prefix: Style::Cyan,
        }
    }

    /// Switches to colors.
    pub fn colorize(&mut self)
        ensures
            *final(self) == ListStyles::colored(),
    {
        self.binary_id = Style::MagentaBold;
        self.test_name = Style::BlueBold;
        self.module_prefix = Style::Cyan;
    }
}

/// The styles of the reporter.
#[derive(Copy, Clone, Debug, PartialEq, Eq, Structural)]
pub struct Styles {
    /// True once colors were switched on.
    pub is_colorized: bool,
    /// Numbers.
    pub count: Style,
    /// Passing tests.
    pub pass: Style,
    /// Attempts that will be retried.
    pub retry: Style,
    /// Failing tests.
    pub fail: Style,
    /// The output of passing tests.
    pub pass_output: Style,
    /// The output of attempts that will be retried.
    pub retry_output: Style,
    /// The output of failing tests.
    pub fail_output: Style,
    /// Skipped, slow, leaky and flaky tests.
    pub skip: Style,
    /// Setup script IDs.
    pub script_id: Style,
    /// Test names.
    pub list_styles: ListStyles,
}

impl Default for Styles {
    /// Everything plain.
    fn default() -> (r: Styles)
        ensures
            r == Styles::plain(),
    {
        Styles {
            is_colorized: false,
            count: Style::Plain,
            pass: Style::Plain,
            retry: Style::Plain,
            fail: Style::Plain,
            pass_output: Style::Plain,
            retry_output: Style::Plain,
            fail_output: Style::Plain,
            skip: Style::Plain,
            script_id: Style::Plain,
            list_styles: ListStyles {
                binary_id: Style::Plain,
                test_name: Style::Plain,
                module_prefix: Style::Plain,
            },
        }
    }
}

impl Styles {
    /// Everything plain.
    pub open spec fn plain() -> Styles {
        Styles {
            is_colorized: false,
            count: Style::Plain,
            pass: Style::Plain,
            retry: Style::Plain,
            fail: Style::Plain,
            pass_output: Style::Plain,
            retry_output: Style::Plain,
            fail_output: Style::Plain,
            skip: Style::Plain,
            script_id: Style::Plain,
            list_styles: ListStyles::plain(),
        }
    }

    /// Everything in color.
    pub open spec fn colored() -> Styles {
        Styles {
            is_colorized: true,
            count: Style::Bold,
            pass: Style::GreenBold,
            retry: Style::MagentaBold,
            fail: Style::RedBold,
            pass_output: Style::Green,
            retry_output: Style::Magenta,
            fail_output: Style::Magenta,
            skip: Style::YellowBold,
            script_id: Style::BlueBold,
            list_styles: ListStyles::colored(),
        }
    }

    /// Switches to colors.
    pub fn colorize(&mut self)
        ensures
            *final(self) == Styles::colored(),
    {
        self.is_colorized = true;
        self.count = Style::Bold;
        self.pass = Style::GreenBold;
        self.retry = Style::MagentaBold;
        self.fail = Style::RedBold;
        self.pass_output = Style::Green;
        self.retry_output = Style::Magenta;
        self.fail_output = Style::Magenta;
        self.skip = Style::YellowBold;
        self.script_id = Style::BlueBold;
        self.list_styles.colorize();
    }
}

} // verus!
