//! The screen model: a terminal emulation engine kept in step with a byte stream and
//! with the size of the window it backs.
//!
//! The engine is `vt100::Parser`. What this module knows of it is what the contracts
//! on its methods below say, and no more: the limits of its size, and names for what it
//! shows.

use vstd::prelude::*;

verus! {

/// `vt100::Parser`, the engine: carried as it is, never looked into.
#[verifier::external_type_specification]
#[verifier::external_body]
pub struct ExParser(vt100::Parser);

/// `vt100::Screen`, the engine's screen as a drawing routine reads it: carried as it
/// is, never looked into.
#[verifier::external_type_specification]
#[verifier::external_body]
pub struct ExScreen(vt100::Screen);

/// The fewest rows that the engine can work with.
pub const MIN_ROWS: u16 = 2;

/// The fewest columns that the engine can work with.
pub const MIN_COLS: u16 = 3;

/// The most columns that the engine can work with.
pub const MAX_COLS: u16 = 65527;

/// The engine can work with a screen of `rows` x `cols`.
pub open spec fn usable_size(rows: u16, cols: u16) -> bool {
    rows >= MIN_ROWS && MIN_COLS <= cols <= MAX_COLS
}

/// The size of a screen as (rows, columns): what `vt100::Screen::size` returns.
pub uninterp spec fn screen_size(screen: vt100::Screen) -> (u16, u16);

/// The plain text on a screen: what `vt100::Screen::contents` returns.
pub uninterp spec fn screen_text(screen: vt100::Screen) -> Seq<char>;

/// The size of the engine's screen, as (rows, columns).
pub uninterp spec fn parser_size(parser: vt100::Parser) -> (u16, u16);

/// The plain text on the engine's screen.
pub uninterp spec fn parser_text(parser: vt100::Parser) -> Seq<char>;

/// The plain text on the engine's screen once the engine, as it stands in `parser`, has
/// been fed `bytes`: what `vt100::Parser::process` makes of them.
pub uninterp spec fn processed_text(parser: vt100::Parser, bytes: Seq<u8>) -> Seq<char>;

/// The plain text on the engine's screen once the engine, as it stands in `parser`, has
/// grown to `rows` x `cols`: what `vt100::Parser::set_size` leaves of it.
pub uninterp spec fn resized_text(parser: vt100::Parser, rows: u16, cols: u16) -> Seq<char>;

/// The bytes that draw a screen anew: what `vt100::Screen::state_formatted` returns.
pub uninterp spec fn screen_state(screen: vt100::Screen) -> Seq<u8>;

/// The bytes that draw the engine's screen anew.
pub uninterp spec fn parser_state(parser: vt100::Parser) -> Seq<u8>;

/// The plain text on the screen of an engine that `vt100::Parser::new` has made with
/// these arguments and that has then been fed `bytes`.
pub uninterp spec fn fresh_text(rows: u16, cols: u16, scrollback_len: usize, bytes: Seq<u8>) -> Seq<
    char,
>;

/// `vt100::Parser::new` makes an engine of the size asked for, with nothing on its
/// screen. Engines made with the same arguments are alike: fed the same bytes, they
/// show the same text.
///
/// The engine's grid works on its rows and columns in `u16` without a check. A line
/// that wraps on the last row needs a row above it; a character may be three cells
/// wide, and its width is subtracted from the columns; a tab adds 8 to a column. So
/// the engine is only ever given at least 2 rows, and from 3 to 65527 columns.
pub assume_specification[ vt100::Parser::new ](rows: u16, cols: u16, scrollback_len: usize) -> (parser:
    vt100::Parser)
    requires
        rows >= 2,
        3 <= cols <= 65527,
    ensures
        parser_size(parser) == (rows, cols),
        parser_text(parser) == Seq::<char>::empty(),
        forall|bytes: Seq<u8>| #[trigger]
            processed_text(parser, bytes) == fresh_text(rows, cols, scrollback_len, bytes),
;

/// `vt100::Parser::process` feeds bytes to the engine, one after the other, and does
/// nothing else: what the screen shows afterwards depends on the engine and the bytes
/// alone, and has its name. Nothing in the bytes can change the engine's size: only
/// `set_size` writes it.
pub assume_specification[ vt100::Parser::process ](parser: &mut vt100::Parser, bytes: &[u8])
    requires
        parser_size(*old(parser)).0 >= 2,
        3 <= parser_size(*old(parser)).1 <= 65527,
    ensures
        parser_size(*final(parser)) == parser_size(*old(parser)),
        parser_text(*final(parser)) == processed_text(*old(parser), bytes@),
;

/// `vt100::Parser::set_size` gives the engine a new size, which it then reports. What
/// it leaves on the screen depends on the engine and the new size alone, and has its
/// name.
///
/// Only growth is asked of it. When the engine shrinks it cuts its rows and columns,
/// but neither re-clamps a saved cursor position nor mends a wide character that the
/// cut has halved, and later output that reaches either makes it panic.
pub assume_specification[ vt100::Parser::set_size ](parser: &mut vt100::Parser, rows: u16, cols: u16)
    requires
        rows >= parser_size(*old(parser)).0 >= 2,
        65527 >= cols >= parser_size(*old(parser)).1 >= 3,
    ensures
        parser_size(*final(parser)) == (rows, cols),
        parser_text(*final(parser)) == resized_text(*old(parser), rows, cols),
;

/// `vt100::Parser::screen` lends out the engine's own screen: the size, the text and
/// the redrawing bytes of what it returns are the engine's.
pub assume_specification<'a>[ vt100::Parser::screen ](parser: &'a vt100::Parser) -> (screen:
    &'a vt100::Screen)
    ensures
        screen_size(*screen) == parser_size(*parser),
        screen_text(*screen) == parser_text(*parser),
        screen_state(*screen) == parser_state(*parser),
;

/// `vt100::Screen::size` returns the screen's size as (rows, columns).
pub assume_specification[ vt100::Screen::size ](screen: &vt100::Screen) -> (size: (u16, u16))
    ensures
        size == screen_size(*screen),
;

/// `vt100::Screen::contents` returns the screen's plain text.
pub assume_specification[ vt100::Screen::contents ](screen: &vt100::Screen) -> (text: String)
    ensures
        text@ == screen_text(*screen),
;

/// `vt100::Screen::state_formatted` returns bytes that bring a blank engine to the
/// screen's contents, input modes and title. They depend on the screen alone, and have
/// their name.
pub assume_specification[ vt100::Screen::state_formatted ](screen: &vt100::Screen) -> (bytes: Vec<
    u8,
>)
    ensures
        bytes@ == screen_state(*screen),
;

/// Says whether the engine can work with a screen of `rows` x `cols`.
pub fn is_usable_size(rows: u16, cols: u16) -> (ok: bool)
    ensures
        ok == usable_size(rows, cols),
{
    rows >= MIN_ROWS && cols >= MIN_COLS && cols <= MAX_COLS
}

/// A terminal screen of a known size that absorbs the output of one session.
pub struct ScreenModel {
    parser: vt100::Parser,
}

impl ScreenModel {
    /// The number of rows of the screen.
    pub closed spec fn rows(&self) -> u16 {
        parser_size(self.parser).0
    }

    /// The number of columns of the screen.
    pub closed spec fn cols(&self) -> u16 {
        parser_size(self.parser).1
    }

    /// The plain text on the screen.
    pub closed spec fn text(&self) -> Seq<char> {
        parser_text(self.parser)
    }

    /// The plain text on the screen once `bytes` have been fed to it.
    pub closed spec fn text_after(&self, bytes: Seq<u8>) -> Seq<char> {
        processed_text(self.parser, bytes)
    }

    /// The plain text on the screen once it has taken the size `rows` x `cols`. A
    /// screen that grows on both sides, or stays, shows what the engine leaves when it
    /// is given the new size. A screen that shrinks on either side shows what a new
    /// engine of the new size makes of the bytes that draw the old screen.
    pub closed spec fn text_when_resized(&self, rows: u16, cols: u16) -> Seq<char> {
        if rows >= self.rows() && cols >= self.cols() {
            resized_text(self.parser, rows, cols)
        } else {
            fresh_text(rows, cols, 0, parser_state(self.parser))
        }
    }

    /// The plain text on the screen once it has been asked to take the size `rows` x
    /// `cols`: a size that no screen can have leaves the text as it is.
    pub open spec fn text_after_resize(&self, rows: u16, cols: u16) -> Seq<char> {
        if usable_size(rows, cols) {
            self.text_when_resized(rows, cols)
        } else {
            self.text()
        }
    }

    /// The screen has a size that the engine can work with.
    pub open spec fn wf(&self) -> bool {
        usable_size(self.rows(), self.cols())
    }

    /// A blank screen of `rows` x `cols` cells without scrollback.
    pub fn new(rows: u16, cols: u16) -> (screen: Self)
        requires
            usable_size(rows, cols),
        ensures
            screen.wf(),
            screen.rows() == rows,
            screen.cols() == cols,
            screen.text() == Seq::<char>::empty(),
    {
        ScreenModel { parser: vt100::Parser::new(rows, cols, 0) }
    }

    /// Feeds a chunk of session output to the screen. The size stays as it is, and the
    /// text becomes what the engine makes of the chunk on the screen as it stood.
    pub fn process(&mut self, bytes: &[u8])
        requires
            old(self).wf(),
        ensures
            final(self).rows() == old(self).rows(),
            final(self).cols() == old(self).cols(),
            final(self).text() == old(self).text_after(bytes@),
    {
        self.parser.process(bytes);
    }

    /// Gives the screen the size `rows` x `cols`. A size that the engine cannot work
    /// with is dropped.
    ///
    /// A screen that only grows keeps its engine. A screen that shrinks on either side
    /// gets a new engine of the new size, onto which the old screen is drawn as far as
    /// it fits.
    pub fn resize(&mut self, rows: u16, cols: u16)
        requires
            old(self).wf(),
        ensures
            final(self).wf(),
            usable_size(rows, cols) ==> final(self).rows() == rows && final(self).cols() == cols,
            !usable_size(rows, cols) ==> *final(self) == *old(self),
            final(self).text() == old(self).text_after_resize(rows, cols),
    {
        if is_usable_size(rows, cols) {
            let (now_rows, now_cols) = self.parser.screen().size();
            if rows >= now_rows && cols >= now_cols {
                self.parser.set_size(rows, cols);
            } else {
                let drawn = self.parser.screen().state_formatted();
                let mut parser = vt100::Parser::new(rows, cols, 0);
                parser.process(drawn.as_slice());
                self.parser = parser;
            }
        }
    }

    /// The size of the screen as (rows, columns).
    pub fn size(&self) -> (size: (u16, u16))
        ensures
            size == (self.rows(), self.cols()),
    {
        self.parser.screen().size()
    }

    /// Says whether the screen is well formed.
    pub fn is_well_formed(&self) -> (ok: bool)
        ensures
            ok == self.wf(),
    {
        let (rows, cols) = self.size();
        is_usable_size(rows, cols)
    }

    /// The plain text on the screen.
    pub fn contents(&self) -> (text: String)
        ensures
            text@ == self.text(),
    {
        self.parser.screen().contents()
    }

    /// The screen as the engine holds it, for drawing: a screen of this model's size
    /// that shows this model's text.
    pub fn snapshot(&self) -> (shot: &vt100::Screen)
        ensures
            screen_size(*shot) == (self.rows(), self.cols()),
            screen_text(*shot) == self.text(),
    {
        self.parser.screen()
    }
}

} // verus!
