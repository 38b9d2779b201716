//! The command line: one positional argument, the image's path, and `--help`.
//!
//! The arguments are split into options and values by `lexopt`; what the
//! options and values mean is decided here.

use vstd::prelude::*;
use vstd::string::*;

verus! {

/// The name shown in the usage text when the process was started without one.
pub const DEFAULT_PROGRAM_NAME: &'static str = "hello_ocrs";

/// One option or positional argument, as `lexopt` hands it out.
#[derive(Clone, Debug, PartialEq, Eq)]
pub enum Token {
    /// A short option: `Short('q')` for `-q`.
    Short(char),
    /// A long option, without its dashes: `Long("help")` for `--help`.
    Long(String),
    /// A positional argument.
    Value(String),
}

/// The mathematical content of a [`Token`].
pub enum TokenView {
    Short(char),
    Long(Seq<char>),
    Value(Seq<char>),
}

impl View for Token {
    type V = TokenView;

    open spec fn view(&self) -> TokenView {
        match self {
            Token::Short(c) => TokenView::Short(*c),
            Token::Long(name) => TokenView::Long(name@),
            Token::Value(value) => TokenView::Value(value@),
        }
    }
}

/// One step of lexing: a token, or the lexer's complaint in words.
pub type Lexed = Result<Token, String>;

/// The mathematical content of a [`Lexed`].
pub type LexedView = Result<TokenView, Seq<char>>;

/// What the program was asked to do.
#[derive(Clone, Debug, PartialEq, Eq)]
pub struct Args {
    /// The path of the image to read.
    pub image: String,
}

/// A command line that was understood.
#[derive(Clone, Debug, PartialEq, Eq)]
pub enum Command {
    /// `--help` was given: print the usage text and leave with status 0.
    Help { usage: String },
    /// Extract the text of an image.
    Extract(Args),
}

/// The mathematical content of a [`Command`].
pub enum CommandView {
    Help { usage: Seq<char> },
    Extract { image: Seq<char> },
}

impl View for Command {
    type V = CommandView;

    open spec fn view(&self) -> CommandView {
        match self {
            Command::Help { usage } => CommandView::Help { usage: usage@ },
            Command::Extract(args) => CommandView::Extract { image: args.image@ },
        }
    }
}

/// A command line that was not understood.
#[derive(Clone, Debug, PartialEq, Eq)]
pub enum UsageError {
    /// An option other than `--help`, or a positional argument after the
    /// image's path.
    Unexpected { token: Token, message: String },
    /// The lexer itself rejected an argument.
    Malformed { message: String },
    /// No image was named.
    MissingImage,
    /// The positional argument at `position` is not Unicode; `lossy` is its
    /// text with what is not Unicode replaced.
    NotUnicode { position: usize, lossy: String },
}

/// The mathematical content of a [`UsageError`].
pub enum UsageErrorView {
    Unexpected { token: TokenView, message: Seq<char> },
    Malformed { message: Seq<char> },
    MissingImage,
    NotUnicode { position: nat, lossy: Seq<char> },
}

/// One argument of the process: as it was given where it is Unicode, else
/// with what is not Unicode replaced.
#[derive(Clone, Debug, PartialEq, Eq)]
pub enum Argument {
    /// An argument that is Unicode.
    Decoded(String),
    /// An argument that is not Unicode, with what is not replaced.
    Lossy(String),
}

impl View for UsageError {
    type V = UsageErrorView;

    open spec fn view(&self) -> UsageErrorView {
        match self {
            UsageError::Unexpected { token, message } => UsageErrorView::Unexpected {
                token: token@,
                message: message@,
            },
            UsageError::Malformed { message } => UsageErrorView::Malformed { message: message@ },
            UsageError::MissingImage => UsageErrorView::MissingImage,
            UsageError::NotUnicode { position, lossy } => UsageErrorView::NotUnicode {
                position: *position as nat,
                lossy: lossy@,
            },
        }
    }
}

impl Argument {
    /// The text of the argument.
    pub open spec fn text(self) -> Seq<char> {
        match self {
            Argument::Decoded(text) => text@,
            Argument::Lossy(text) => text@,
        }
    }

    /// The text of the argument.
    pub fn as_text(&self) -> (text: &String)
        ensures
            text@ == self.text(),
    {
        match self {
            Argument::Decoded(text) => text,
            Argument::Lossy(text) => text,
        }
    }
}

/// The texts of arguments.
pub open spec fn argument_texts(args: Seq<Argument>) -> Seq<Seq<char>> {
    args.map_values(|a: Argument| a.text())
}

/// The position of the first argument from `from` on that is not Unicode,
/// or the number of arguments where all from there on are.
pub open spec fn first_lossy(args: Seq<Argument>, from: int) -> int
    decreases args.len() - from,
{
    if from < 0 || from >= args.len() || args[from] is Lossy {
        from
    } else {
        first_lossy(args, from + 1)
    }
}

/// Whether the options have been ended by `--` among the arguments after the
/// program's name.
pub open spec fn terminated(argv: Seq<Seq<char>>) -> bool {
    exists|i: int| 1 <= i < argv.len() && #[trigger] argv[i] == "--"@
}

/// Whether an option has decided what a command line means.
pub open spec fn decided(outcome: Result<CommandView, UsageErrorView>) -> bool {
    match outcome {
        Ok(CommandView::Help { .. }) => true,
        Err(UsageErrorView::Malformed { .. }) => true,
        Err(UsageErrorView::Unexpected { token: TokenView::Short(_), .. }) => true,
        Err(UsageErrorView::Unexpected { token: TokenView::Long(_), .. }) => true,
        _ => false,
    }
}

/// What a command line means of which an argument may not be Unicode. The
/// first argument is the program's name. Where every other is Unicode, they
/// mean what they lex to. Else the arguments before the first that is not
/// decide, where an option among them does. Where none does, that argument
/// decides: read as a positional argument, after `--` or by how it begins, it
/// is an error; read as an option, it means what its text lexes to.
pub open spec fn arguments_meaning(args: Seq<Argument>) -> Result<CommandView, UsageErrorView> {
    let texts = argument_texts(args);
    let name = name_in(texts);
    let at = first_lossy(args, 1);
    if at >= args.len() {
        meaning(name, lexed(after_name(texts)))
    } else {
        let before = meaning(name, lexed(after_name(texts.take(at))));
        let alone = lexed(seq![texts[at]]);
        if decided(before) {
            before
        } else if terminated(texts.take(at)) || (alone.len() > 0 && alone[0] matches Ok(
            TokenView::Value(_),
        )) {
            Err(UsageErrorView::NotUnicode { position: at as nat, lossy: texts[at] })
        } else {
            meaning(name, alone)
        }
    }
}

/// The views of the process's arguments.
pub open spec fn arg_texts(argv: Seq<String>) -> Seq<Seq<char>> {
    argv.map_values(|s: String| s@)
}

/// The views of lexed arguments.
pub open spec fn lexed_views(items: Seq<Lexed>) -> Seq<LexedView> {
    items.map_values(|item: Lexed| lexed_view(item))
}

/// The view of one lexed argument.
pub open spec fn lexed_view(item: Lexed) -> LexedView {
    match item {
        Ok(token) => Ok(token@),
        Err(message) => Err(message@),
    }
}

/// The program's name among the process's arguments: the first of them.
pub open spec fn name_in(argv: Seq<Seq<char>>) -> Option<Seq<char>> {
    if argv.len() > 0 {
        Some(argv[0])
    } else {
        None
    }
}

/// The process's arguments without the program's name.
pub open spec fn after_name(argv: Seq<Seq<char>>) -> Seq<Seq<char>> {
    if argv.len() > 0 {
        argv.skip(1)
    } else {
        argv
    }
}

/// The usage text for a program of the given name.
pub open spec fn usage_text(program: Option<Seq<char>>) -> Seq<char> {
    let name = match program {
        Some(name) => name,
        None => DEFAULT_PROGRAM_NAME@,
    };
    "Usage: "@ + name + " <image>"@
}

/// What `lexopt` says of an argument that nothing asked for.
pub open spec fn unexpected_text(token: TokenView) -> Seq<char> {
    match token {
        TokenView::Short(c) => "invalid option '-"@.push(c) + "'"@,
        TokenView::Long(name) => "invalid option '--"@ + name + "'"@,
        TokenView::Value(value) => "unexpected argument "@ + debug_text(value),
    }
}

/// The error for an argument that nothing asked for.
pub open spec fn rejected(token: TokenView) -> UsageErrorView {
    UsageErrorView::Unexpected { token, message: unexpected_text(token) }
}

/// What a command line means once every argument has been looked at and all
/// of them were positional.
pub open spec fn concluded(values: Seq<Seq<char>>) -> Result<CommandView, UsageErrorView> {
    if values.len() == 0 {
        Err(UsageErrorView::MissingImage)
    } else if values.len() == 1 {
        Ok(CommandView::Extract { image: values[0] })
    } else {
        Err(rejected(TokenView::Value(values[1])))
    }
}

/// What the rest of a command line means, after the positional arguments
/// `values`. The first item that is not a positional argument decides: a
/// complaint of the lexer is an error, `--help` asks for the usage text, any
/// other option is rejected. Where there is no such item, the positional
/// arguments decide.
pub open spec fn meaning_after(
    program: Option<Seq<char>>,
    items: Seq<LexedView>,
    values: Seq<Seq<char>>,
) -> Result<CommandView, UsageErrorView>
    decreases items.len(),
{
    if items.len() == 0 {
        concluded(values)
    } else {
        match items[0] {
            Err(message) => Err(UsageErrorView::Malformed { message }),
            Ok(TokenView::Value(value)) => meaning_after(
                program,
                items.skip(1),
                values.push(value),
            ),
            Ok(TokenView::Long(name)) => if name == "help"@ {
                Ok(CommandView::Help { usage: usage_text(program) })
            } else {
                Err(rejected(TokenView::Long(name)))
            },
            Ok(TokenView::Short(c)) => Err(rejected(TokenView::Short(c))),
        }
    }
}

/// What a lexed command line means.
pub open spec fn meaning(program: Option<Seq<char>>, items: Seq<LexedView>) -> Result<
    CommandView,
    UsageErrorView,
> {
    meaning_after(program, items, Seq::empty())
}

/// The view of a parse result.
pub open spec fn outcome_view(outcome: Result<Command, UsageError>) -> Result<
    CommandView,
    UsageErrorView,
> {
    match outcome {
        Ok(command) => Ok(command@),
        Err(error) => Err(error@),
    }
}

#[verifier::external_type_specification]
#[verifier::external_body]
pub struct ExParser(lexopt::Parser);

#[verifier::external_type_specification]
#[verifier::external_body]
pub struct ExLexoptError(lexopt::Error);

/// What `lexopt` makes of a list of arguments: the tokens that a parser over
/// them hands out in turn, each either a token or, where the parser fails,
/// the text of its error.
pub uninterp spec fn lexed(args: Seq<Seq<char>>) -> Seq<LexedView>;

/// What a parser has yet to hand out.
pub uninterp spec fn pending(parser: lexopt::Parser) -> Seq<LexedView>;

/// The text that a `lexopt` error displays.
pub uninterp spec fn error_text(error: lexopt::Error) -> Seq<char>;

/// A string as `Debug` prints an `OsString` that holds it.
pub uninterp spec fn debug_text(value: Seq<char>) -> Seq<char>;

/// `lexopt::Parser::from_iter`: the parser takes the first argument as the
/// program's name and will hand out what the others lex to.
#[verifier::external_body]
fn parser_over(argv: &Vec<String>) -> (parser: lexopt::Parser)
    ensures
        pending(parser) == lexed(after_name(arg_texts(argv@))),
{
    lexopt::Parser::from_iter(argv)
}

/// `lexopt::Parser::next`: hands out the first of what is pending and keeps
/// the rest; `None` where nothing is pending. A positional argument is
/// decoded with `ValueExt::string`, whose failure counts as the parser's.
#[verifier::external_body]
fn next_token(parser: &mut lexopt::Parser) -> (step: Result<Option<Token>, lexopt::Error>)
    ensures
        match step {
            Ok(None) => pending(*old(parser)).len() == 0 && pending(*final(parser)) == pending(
                *old(parser),
            ),
            Ok(Some(token)) => pending(*old(parser)).len() > 0 && pending(*old(parser))[0] == Ok::<
                TokenView,
                Seq<char>,
            >(token@) && pending(*final(parser)) == pending(*old(parser)).skip(1),
            Err(error) => pending(*old(parser)).len() > 0 && pending(*old(parser))[0] == Err::<
                TokenView,
                Seq<char>,
            >(error_text(error)) && pending(*final(parser)) == pending(*old(parser)).skip(1),
        },
{
    Ok(
        match parser.next()? {
            None => None,
            Some(lexopt::Arg::Short(c)) => Some(Token::Short(c)),
            Some(lexopt::Arg::Long(name)) => Some(Token::Long(name.to_string())),
            Some(lexopt::Arg::Value(value)) => Some(
                Token::Value(lexopt::ValueExt::string(value)?),
            ),
        },
    )
}

/// `lexopt::Arg::unexpected`: the error for an argument that nothing asked
/// for. It displays as "invalid option" with the option in single quotes, or
/// as "unexpected argument" with the value as `Debug` prints it.
#[verifier::external_body]
fn unexpected(token: &Token) -> (error: lexopt::Error)
    ensures
        match token@ {
            TokenView::Short(c) => error_text(error) == "invalid option '-"@.push(c) + "'"@,
            TokenView::Long(name) => error_text(error) == "invalid option '--"@ + name + "'"@,
            TokenView::Value(value) => error_text(error) == "unexpected argument "@ + debug_text(
                value,
            ),
        },
{
    match token {
        Token::Short(c) => lexopt::Arg::Short(*c).unexpected(),
        Token::Long(name) => lexopt::Arg::Long(name.as_str()).unexpected(),
        Token::Value(value) => lexopt::Arg::Value(value.into()).unexpected(),
    }
}

/// `Display` of `lexopt::Error`.
#[verifier::external_body]
fn describe(error: &lexopt::Error) -> (text: String)
    ensures
        text@ == error_text(*error),
{
    error.to_string()
}

impl Token {
    /// A copy of this token.
    pub fn duplicate(&self) -> (copy: Token)
        ensures
            copy@ == self@,
    {
        match self {
            Token::Short(c) => Token::Short(*c),
            Token::Long(name) => Token::Long(name.clone()),
            Token::Value(value) => Token::Value(value.clone()),
        }
    }
}

impl UsageError {
    /// The error in words.
    pub fn message(&self) -> (text: String)
        ensures
            text@ == match self@ {
                UsageErrorView::Unexpected { message, .. } => message,
                UsageErrorView::Malformed { message } => message,
                UsageErrorView::MissingImage => "missing `image` arg"@,
                UsageErrorView::NotUnicode { lossy, .. } => "argument is invalid unicode: "@
                    + lossy,
            },
    {
        match self {
            UsageError::Unexpected { message, .. } => message.clone(),
            UsageError::Malformed { message } => message.clone(),
            UsageError::MissingImage => String::from_str("missing `image` arg"),
            UsageError::NotUnicode { lossy, .. } => String::from_str(
                "argument is invalid unicode: ",
            ).concat(lossy.as_str()),
        }
    }
}

/// The usage text: the program's name, or [`DEFAULT_PROGRAM_NAME`] where it
/// has none, and the one argument that it takes.
pub fn usage(program: Option<&String>) -> (text: String)
    ensures
        text@ == usage_text(
            match program {
                Some(name) => Some(name@),
                None => None,
            },
        ),
{
    let name = match program {
        Some(name) => name.clone(),
        None => String::from_str(DEFAULT_PROGRAM_NAME),
    };
    String::from_str("Usage: ").concat(name.as_str()).concat(" <image>")
}

/// The error for an argument that nothing asked for.
pub fn reject(token: &Token) -> (error: UsageError)
    ensures
        error@ == rejected(token@),
{
    let complaint = unexpected(token);
    UsageError::Unexpected { token: token.duplicate(), message: describe(&complaint) }
}

/// Splits the process's arguments into options and positional arguments. The
/// first argument is the program's name and is not lexed.
pub fn lex(argv: &Vec<String>) -> (items: Vec<Lexed>)
    ensures
        lexed_views(items@) == lexed(after_name(arg_texts(argv@))),
{
    let mut parser = parser_over(argv);
    let mut items: Vec<Lexed> = Vec::new();
    let ghost all = pending(parser);
    loop
        invariant
            lexed_views(items@) + pending(parser) == all,
            all == lexed(after_name(arg_texts(argv@))),
        ensures
            lexed_views(items@) == all,
        decreases pending(parser).len(),
    {
        let item: Lexed = match next_token(&mut parser) {
            Ok(None) => {
                break ;
            },
            Ok(Some(token)) => Ok(token),
            Err(error) => Err(describe(&error)),
        };
        items.push(item);
    }
    items
}

/// Decides what a lexed command line means. The first item that is not a
/// positional argument decides: a complaint of the lexer is an error, `--help`
/// asks for the usage text, any other option is rejected. Where all items are
/// positional, exactly one of them is wanted: the image's path.
pub fn interpret(program: Option<&String>, items: &Vec<Lexed>) -> (outcome: Result<
    Command,
    UsageError,
>)
    ensures
        outcome_view(outcome) == meaning(
            match program {
                Some(name) => Some(name@),
                None => None,
            },
            lexed_views(items@),
        ),
{
    let ghost name: Option<Seq<char>> = match program {
        Some(name) => Some(name@),
        None => None,
    };
    let ghost all = lexed_views(items@);
    let help = String::from_str("help");
    let mut values: Vec<String> = Vec::new();
    let mut i: usize = 0;
    assert(all.skip(0) =~= all);
    assert(arg_texts(values@) =~= Seq::empty());
    while i < items.len()
        invariant
            i <= items.len(),
            all == lexed_views(items@),
            help@ == "help"@,
            name == match program {
                Some(name) => Some(name@),
                None => None,
            },
            meaning_after(name, all.skip(i as int), arg_texts(values@)) == meaning(name, all),
        decreases items.len() - i,
    {
        let ghost rest = all.skip(i as int);
        assert(rest.skip(1) =~= all.skip(i + 1));
        match &items[i] {
            Err(message) => {
                return Err(UsageError::Malformed { message: message.clone() });
            },
            Ok(Token::Value(value)) => {
                let ghost before = values@;
                values.push(value.clone());
                assert(arg_texts(values@) =~= arg_texts(before).push(value@));
            },
            Ok(Token::Long(long)) => {
                if *long == help {
                    return Ok(Command::Help { usage: usage(program) });
                }
                return Err(reject(&items[i].as_ref().unwrap()));
            },
            Ok(Token::Short(_)) => {
                return Err(reject(&items[i].as_ref().unwrap()));
            },
        }
        i += 1;
    }
    if values.len() == 0 {
        Err(UsageError::MissingImage)
    } else if values.len() == 1 {
        Ok(Command::Extract(Args { image: values[0].clone() }))
    } else {
        let extra = Token::Value(values[1].clone());
        Err(reject(&extra))
    }
}

/// Parses the process's arguments, of which the first is the program's name.
///
/// `--help` asks for the usage text. Exactly one positional argument is
/// wanted, the image's path; every other option and every further argument is
/// an error, and so is a command line without an image.
pub fn parse_args(argv: &Vec<String>) -> (outcome: Result<Command, UsageError>)
    ensures
        outcome_view(outcome) == meaning(
            name_in(arg_texts(argv@)),
            lexed(after_name(arg_texts(argv@))),
        ),
{
    let items = lex(argv);
    if argv.len() > 0 {
        interpret(Some(&argv[0]), &items)
    } else {
        interpret(None, &items)
    }
}

/// Whether the options have been ended by `--` among the arguments after the
/// program's name.
pub fn is_terminated(argv: &Vec<String>) -> (ended: bool)
    ensures
        ended == terminated(arg_texts(argv@)),
{
    let dashes = String::from_str("--");
    let mut i: usize = 1;
    while i < argv.len()
        invariant
            1 <= i,
            dashes@ == "--"@,
            forall|k: int|
                1 <= k < i && k < argv@.len() ==> #[trigger] arg_texts(argv@)[k] != "--"@,
        decreases argv.len() - i,
    {
        if argv[i] == dashes {
            assert(arg_texts(argv@)[i as int] == "--"@);
            return true;
        }
        i += 1;
    }
    false
}

/// Whether an option has decided what a command line means.
pub fn is_decided(outcome: &Result<Command, UsageError>) -> (by_option: bool)
    ensures
        by_option == decided(outcome_view(*outcome)),
{
    match outcome {
        Ok(Command::Help { .. }) => true,
        Err(UsageError::Malformed { .. }) => true,
        Err(UsageError::Unexpected { token: Token::Short(_), .. }) => true,
        Err(UsageError::Unexpected { token: Token::Long(_), .. }) => true,
        _ => false,
    }
}

/// Parses the process's arguments, of which the first is the program's name
/// and any may not be Unicode.
///
/// Arguments that are all Unicode mean what [`parse_args`] says. Else the
/// arguments before the first that is not Unicode decide, where an option
/// among them does; where none does, that argument is an error if it is
/// positional, and is read with what is not Unicode replaced if it is an
/// option.
pub fn parse_arguments(args: &Vec<Argument>) -> (outcome: Result<Command, UsageError>)
    ensures
        outcome_view(outcome) == arguments_meaning(args@),
{
    let ghost texts = argument_texts(args@);
    let mut argv: Vec<String> = Vec::new();
    let mut i: usize = 0;
    loop
        invariant
            i <= args.len(),
            texts == argument_texts(args@),
            arg_texts(argv@) == texts.take(i as int),
            i >= 1 ==> first_lossy(args@, 1) == first_lossy(args@, i as int),
        ensures
            i <= args.len(),
            arg_texts(argv@) == texts.take(i as int),
            first_lossy(args@, 1) >= args@.len() <==> i == args.len(),
            i < args.len() ==> first_lossy(args@, 1) == i && i >= 1,
        decreases args.len() - i,
    {
        if i >= args.len() {
            break ;
        }
        if i >= 1 {
            match &args[i] {
                Argument::Lossy(_) => {
                    break ;
                },
                Argument::Decoded(_) => {},
            }
        }
        let ghost before = argv@;
        argv.push(args[i].as_text().clone());
        assert(arg_texts(argv@) =~= arg_texts(before).push(args@[i as int].text()));
        assert(texts.take(i + 1) =~= texts.take(i as int).push(texts[i as int]));
        i += 1;
    }
    let before = parse_args(&argv);
    if i >= args.len() {
        assert(texts.take(i as int) =~= texts);
        return before;
    }
    assert(name_in(texts.take(i as int)) == name_in(texts));
    if is_decided(&before) {
        return before;
    }
    let lossy = args[i].as_text();
    let mut alone: Vec<String> = Vec::new();
    alone.push(argv[0].clone());
    alone.push(lossy.clone());
    assert(after_name(arg_texts(alone@)) =~= seq![texts[i as int]]);
    let items = lex(&alone);
    let positional = if items.len() > 0 {
        match &items[0] {
            Ok(Token::Value(_)) => true,
            _ => false,
        }
    } else {
        false
    };
    proof {
        if items@.len() > 0 {
            assert(lexed_views(items@)[0] == lexed_view(items@[0]));
        }
    }
    if is_terminated(&argv) || positional {
        return Err(UsageError::NotUnicode { position: i, lossy: lossy.clone() });
    }
    interpret(Some(&argv[0]), &items)
}

} // verus!
