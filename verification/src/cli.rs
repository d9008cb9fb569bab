//! The command line: five subcommands and their options.
//!
//! The first argument is the program's name and is not read. The second names
//! the subcommand. What follows is read from left to right:
//!
//! - `--name value` and `--name=value` give an option its value, as do
//!   `-n value`, `-nvalue` and `-n=value` for the namespace;
//! - `--name` alone sets a flag;
//! - `--` ends the options: what follows is taken as it stands;
//! - any other argument is the secret's name.
//!
//! A value that stands apart from its option may not begin with `-` unless it
//! is `-` alone. No option may be given twice.

use crate::number::{parse_i64, parsed_i64};
use crate::text::{chars_of, owned, same_text};
use vstd::prelude::*;
use vstd::string::*;

verus! {

/// The subcommands.
#[derive(Debug, Clone, Copy, PartialEq, Eq, Structural)]
pub enum Subcommand {
    Get,
    Delete,
    List,
    Inspect,
    Edit,
}

/// The options.
#[derive(Debug, Clone, Copy, PartialEq, Eq, Structural)]
pub enum Opt {
    /// `-n`, `--namespace`: takes a value.
    Namespace,
    /// `--force-refresh`: a flag.
    ForceRefresh,
    /// `--no-refresh`: a flag.
    NoRefresh,
    /// `--no-store`: a flag.
    NoStore,
    /// `--ttl`: takes a number of seconds.
    Ttl,
    /// `--clear-ttl`: a flag.
    ClearTtl,
    /// `--source-sh`: takes a value.
    SourceSh,
    /// `--source-cmd`: takes a value.
    SourceCmd,
}

/// Why a command line was refused.
#[derive(Debug, Clone, Copy, PartialEq, Eq, Structural)]
pub enum CliError {
    /// No subcommand was given.
    MissingSubcommand,
    /// The subcommand is none of the five.
    UnknownSubcommand,
    /// An option that the subcommand does not have.
    UnknownArgument,
    /// An option that takes a value stands without one.
    MissingValue { option: Opt },
    /// A flag was given a value.
    UnexpectedValue { option: Opt },
    /// The time-to-live is no number.
    InvalidNumber,
    /// An option was given twice.
    Repeated { option: Opt },
    /// A second name, or a name where the subcommand takes none.
    UnexpectedWord,
    /// Two options that exclude each other were both given.
    Conflict { first: Opt, second: Opt },
    /// The subcommand needs a namespace.
    MissingNamespace,
    /// The subcommand needs the secret's name.
    MissingSecret,
}

/// A parsed command line.
#[derive(Debug, Clone, PartialEq, Eq)]
pub struct Cli {
    pub command: Command,
}

/// What the user asks for.
#[derive(Debug, Clone, PartialEq, Eq)]
#[allow(inconsistent_fields)]
pub enum Command {
    /// Get a secret, fetching it from its source where needed.
    Get {
        namespace: String,
        secret: String,
        force_refresh: bool,
        no_refresh: bool,
        no_store: bool,
        ttl: Option<i64>,
        source_sh: Option<String>,
        source_cmd: Option<String>,
    },
    /// Delete a secret from the credential store and the index.
    Delete { namespace: String, secret: String },
    /// List the cached secrets, of one namespace or of all.
    List { namespace: Option<String> },
    /// Show a cached secret with its metadata.
    Inspect { namespace: String, secret: String },
    /// Change the metadata of a cached secret.
    Edit {
        namespace: String,
        secret: String,
        ttl: Option<i64>,
        clear_ttl: bool,
        source_sh: Option<String>,
        source_cmd: Option<String>,
    },
}

/// A [`Command`] as mathematical values.
#[allow(inconsistent_fields)]
pub enum CommandView {
    Get {
        namespace: Seq<char>,
        secret: Seq<char>,
        force_refresh: bool,
        no_refresh: bool,
        no_store: bool,
        ttl: Option<i64>,
        source_sh: Option<Seq<char>>,
        source_cmd: Option<Seq<char>>,
    },
    Delete { namespace: Seq<char>, secret: Seq<char> },
    List { namespace: Option<Seq<char>> },
    Inspect { namespace: Seq<char>, secret: Seq<char> },
    Edit {
        namespace: Seq<char>,
        secret: Seq<char>,
        ttl: Option<i64>,
        clear_ttl: bool,
        source_sh: Option<Seq<char>>,
        source_cmd: Option<Seq<char>>,
    },
}

/// The view of an optional string.
pub open spec fn opt_text(s: Option<String>) -> Option<Seq<char>> {
    match s {
        Some(s) => Some(s@),
        None => None,
    }
}

impl View for Command {
    type V = CommandView;

    open spec fn view(&self) -> CommandView {
        match *self {
            Command::Get {
                namespace,
                secret,
                force_refresh,
                no_refresh,
                no_store,
                ttl,
                source_sh,
                source_cmd,
            } => CommandView::Get {
                namespace: namespace@,
                secret: secret@,
                force_refresh,
                no_refresh,
                no_store,
                ttl,
                source_sh: opt_text(source_sh),
                source_cmd: opt_text(source_cmd),
            },
            Command::Delete { namespace, secret } => CommandView::Delete {
                namespace: namespace@,
                secret: secret@,
            },
            Command::List { namespace } => CommandView::List { namespace: opt_text(namespace) },
            Command::Inspect { namespace, secret } => CommandView::Inspect {
                namespace: namespace@,
                secret: secret@,
            },
            Command::Edit {
                namespace,
                secret,
                ttl,
                clear_ttl,
                source_sh,
                source_cmd,
            } => CommandView::Edit {
                namespace: namespace@,
                secret: secret@,
                ttl,
                clear_ttl,
                source_sh: opt_text(source_sh),
                source_cmd: opt_text(source_cmd),
            },
        }
    }
}

impl View for Cli {
    type V = CommandView;

    open spec fn view(&self) -> CommandView {
        self.command@
    }
}

/// The subcommand that `word` names.
pub open spec fn subcommand_named(word: Seq<char>) -> Option<Subcommand> {
    if word == "get"@ {
        Some(Subcommand::Get)
    } else if word == "delete"@ {
        Some(Subcommand::Delete)
    } else if word == "list"@ {
        Some(Subcommand::List)
    } else if word == "inspect"@ {
        Some(Subcommand::Inspect)
    } else if word == "edit"@ {
        Some(Subcommand::Edit)
    } else {
        None
    }
}

/// The option with the long name `name`.
pub open spec fn long_option(name: Seq<char>) -> Option<Opt> {
    if name == "namespace"@ {
        Some(Opt::Namespace)
    } else if name == "force-refresh"@ {
        Some(Opt::ForceRefresh)
    } else if name == "no-refresh"@ {
        Some(Opt::NoRefresh)
    } else if name == "no-store"@ {
        Some(Opt::NoStore)
    } else if name == "ttl"@ {
        Some(Opt::Ttl)
    } else if name == "clear-ttl"@ {
        Some(Opt::ClearTtl)
    } else if name == "source-sh"@ {
        Some(Opt::SourceSh)
    } else if name == "source-cmd"@ {
        Some(Opt::SourceCmd)
    } else {
        None
    }
}

/// The option with the short name `letter`.
pub open spec fn short_option(letter: char) -> Option<Opt> {
    if letter == 'n' {
        Some(Opt::Namespace)
    } else {
        None
    }
}

impl Opt {
    /// Whether the option takes a value; the others are flags.
    pub open spec fn takes_value(self) -> bool {
        self == Opt::Namespace || self == Opt::Ttl || self == Opt::SourceSh || self
            == Opt::SourceCmd
    }
}

impl Subcommand {
    /// Whether the subcommand has the option.
    pub open spec fn accepts(self, option: Opt) -> bool {
        match self {
            Subcommand::Get => option != Opt::ClearTtl,
            Subcommand::Edit => option == Opt::Namespace || option == Opt::Ttl || option
                == Opt::ClearTtl || option == Opt::SourceSh || option == Opt::SourceCmd,
            Subcommand::Delete | Subcommand::List | Subcommand::Inspect => option == Opt::Namespace,
        }
    }

    /// Whether the subcommand takes the secret's name.
    pub open spec fn names_secret(self) -> bool {
        self != Subcommand::List
    }
}

/// What has been read of the options so far.
pub struct FieldsView {
    pub namespace: Option<Seq<char>>,
    pub secret: Option<Seq<char>>,
    pub force_refresh: bool,
    pub no_refresh: bool,
    pub no_store: bool,
    pub clear_ttl: bool,
    pub ttl: Option<i64>,
    pub source_sh: Option<Seq<char>>,
    pub source_cmd: Option<Seq<char>>,
}

/// Nothing read yet.
pub open spec fn no_fields() -> FieldsView {
    FieldsView {
        namespace: None,
        secret: None,
        force_refresh: false,
        no_refresh: false,
        no_store: false,
        clear_ttl: false,
        ttl: None,
        source_sh: None,
        source_cmd: None,
    }
}

/// One argument, by its form.
pub enum TokenView {
    /// `--`
    Separator,
    /// `--name` or `--name=value`
    Long { name: Seq<char>, value: Option<Seq<char>> },
    /// `-x`, `-xvalue` or `-x=value`
    Short { letter: char, value: Option<Seq<char>> },
    /// Anything else, `-` alone and the empty argument included.
    Word,
}

/// The position of the first `c` in `s`, or the length of `s` where there is
/// none.
pub open spec fn position_of(s: Seq<char>, c: char) -> int
    decreases s.len(),
{
    if s.len() == 0 || s[0] == c {
        0
    } else {
        1 + position_of(s.skip(1), c)
    }
}

/// Whether the argument has the form of an option: it begins with `-` and is
/// longer than that.
pub open spec fn looks_like_option(token: Seq<char>) -> bool {
    token.len() >= 2 && token[0] == '-'
}

/// The form of an argument.
pub open spec fn classified(token: Seq<char>) -> TokenView {
    if !looks_like_option(token) {
        TokenView::Word
    } else if token[1] == '-' {
        if token.len() == 2 {
            TokenView::Separator
        } else {
            let body = token.skip(2);
            let k = position_of(body, '=');
            if k < body.len() {
                TokenView::Long { name: body.take(k), value: Some(body.skip(k + 1)) }
            } else {
                TokenView::Long { name: body, value: None }
            }
        }
    } else {
        let rest = token.skip(2);
        TokenView::Short {
            letter: token[1],
            value: if rest.len() == 0 {
                None
            } else if rest[0] == '=' {
                Some(rest.skip(1))
            } else {
                Some(rest)
            },
        }
    }
}

impl FieldsView {
    /// The fields after the option `option` was given the value `value`.
    pub open spec fn with_value(self, option: Opt, value: Seq<char>) -> Result<
        FieldsView,
        CliError,
    > {
        match option {
            Opt::Namespace => if self.namespace is Some {
                Err(CliError::Repeated { option })
            } else {
                Ok(FieldsView { namespace: Some(value), ..self })
            },
            Opt::Ttl => if self.ttl is Some {
                Err(CliError::Repeated { option })
            } else {
                match parsed_i64(value) {
                    Some(t) => Ok(FieldsView { ttl: Some(t), ..self }),
                    None => Err(CliError::InvalidNumber),
                }
            },
            Opt::SourceSh => if self.source_sh is Some {
                Err(CliError::Repeated { option })
            } else {
                Ok(FieldsView { source_sh: Some(value), ..self })
            },
            Opt::SourceCmd => if self.source_cmd is Some {
                Err(CliError::Repeated { option })
            } else {
                Ok(FieldsView { source_cmd: Some(value), ..self })
            },
            _ => Err(CliError::UnexpectedValue { option }),
        }
    }

    /// The fields after the flag `option` was set.
    pub open spec fn with_flag(self, option: Opt) -> Result<FieldsView, CliError> {
        match option {
            Opt::ForceRefresh => if self.force_refresh {
                Err(CliError::Repeated { option })
            } else {
                Ok(FieldsView { force_refresh: true, ..self })
            },
            Opt::NoRefresh => if self.no_refresh {
                Err(CliError::Repeated { option })
            } else {
                Ok(FieldsView { no_refresh: true, ..self })
            },
            Opt::NoStore => if self.no_store {
                Err(CliError::Repeated { option })
            } else {
                Ok(FieldsView { no_store: true, ..self })
            },
            Opt::ClearTtl => if self.clear_ttl {
                Err(CliError::Repeated { option })
            } else {
                Ok(FieldsView { clear_ttl: true, ..self })
            },
            _ => Err(CliError::MissingValue { option }),
        }
    }

    /// The fields after an argument was read as the secret's name.
    pub open spec fn with_word(self, sub: Subcommand, word: Seq<char>) -> Result<
        FieldsView,
        CliError,
    > {
        if sub.names_secret() && self.secret is None {
            Ok(FieldsView { secret: Some(word), ..self })
        } else {
            Err(CliError::UnexpectedWord)
        }
    }

    /// The fields after the option `option` was met, written with the value
    /// `attached` or followed by the argument `next`; and whether `next` was
    /// used up as its value.
    pub open spec fn with_option(
        self,
        sub: Subcommand,
        option: Option<Opt>,
        attached: Option<Seq<char>>,
        next: Option<Seq<char>>,
    ) -> Result<(FieldsView, bool), CliError> {
        match option {
            None => Err(CliError::UnknownArgument),
            Some(o) => if !sub.accepts(o) {
                Err(CliError::UnknownArgument)
            } else if o.takes_value() {
                match (attached, next) {
                    (Some(v), _) => match self.with_value(o, v) {
                        Ok(f) => Ok((f, false)),
                        Err(e) => Err(e),
                    },
                    (None, Some(n)) => if looks_like_option(n) {
                        Err(CliError::MissingValue { option: o })
                    } else {
                        match self.with_value(o, n) {
                            Ok(f) => Ok((f, true)),
                            Err(e) => Err(e),
                        }
                    },
                    (None, None) => Err(CliError::MissingValue { option: o }),
                }
            } else {
                match attached {
                    Some(_) => Err(CliError::UnexpectedValue { option: o }),
                    None => match self.with_flag(o) {
                        Ok(f) => Ok((f, false)),
                        Err(e) => Err(e),
                    },
                }
            },
        }
    }

    /// The command that the fields make, once all arguments are read. Options
    /// that exclude each other are refused first, then what is missing.
    pub open spec fn finished(self, sub: Subcommand) -> Result<CommandView, CliError> {
        if self.force_refresh && self.no_refresh {
            Err(CliError::Conflict { first: Opt::ForceRefresh, second: Opt::NoRefresh })
        } else if self.source_sh is Some && self.source_cmd is Some {
            Err(CliError::Conflict { first: Opt::SourceSh, second: Opt::SourceCmd })
        } else if self.ttl is Some && self.clear_ttl {
            Err(CliError::Conflict { first: Opt::Ttl, second: Opt::ClearTtl })
        } else if sub == Subcommand::List {
            Ok(CommandView::List { namespace: self.namespace })
        } else if self.namespace is None {
            Err(CliError::MissingNamespace)
        } else if self.secret is None {
            Err(CliError::MissingSecret)
        } else {
            let namespace = self.namespace.unwrap();
            let secret = self.secret.unwrap();
            Ok(
                match sub {
                    Subcommand::Get => CommandView::Get {
                        namespace,
                        secret,
                        force_refresh: self.force_refresh,
                        no_refresh: self.no_refresh,
                        no_store: self.no_store,
                        ttl: self.ttl,
                        source_sh: self.source_sh,
                        source_cmd: self.source_cmd,
                    },
                    Subcommand::Delete => CommandView::Delete { namespace, secret },
                    Subcommand::Inspect => CommandView::Inspect { namespace, secret },
                    _ => CommandView::Edit {
                        namespace,
                        secret,
                        ttl: self.ttl,
                        clear_ttl: self.clear_ttl,
                        source_sh: self.source_sh,
                        source_cmd: self.source_cmd,
                    },
                },
            )
        }
    }
}

/// The argument after position `i`, where there is one.
pub open spec fn following(args: Seq<Seq<char>>, i: int) -> Option<Seq<char>> {
    if i + 1 < args.len() {
        Some(args[i + 1])
    } else {
        None
    }
}

/// Reading the argument at position `i`: the fields after it, how many
/// arguments were used, and whether the options have ended.
pub open spec fn stepped(
    sub: Subcommand,
    args: Seq<Seq<char>>,
    i: int,
    fields: FieldsView,
    words_only: bool,
) -> Result<(FieldsView, int, bool), CliError> {
    let token = args[i];
    let form = if words_only {
        TokenView::Word
    } else {
        classified(token)
    };
    match form {
        TokenView::Separator => Ok((fields, 1, true)),
        TokenView::Word => match fields.with_word(sub, token) {
            Ok(f) => Ok((f, 1, words_only)),
            Err(e) => Err(e),
        },
        TokenView::Long { name, value } => match fields.with_option(
            sub,
            long_option(name),
            value,
            following(args, i),
        ) {
            Ok((f, used)) => Ok((f, if used { 2 } else { 1 }, false)),
            Err(e) => Err(e),
        },
        TokenView::Short { letter, value } => match fields.with_option(
            sub,
            short_option(letter),
            value,
            following(args, i),
        ) {
            Ok((f, used)) => Ok((f, if used { 2 } else { 1 }, false)),
            Err(e) => Err(e),
        },
    }
}

/// Reading the arguments from position `i` on.
pub open spec fn read_from(
    sub: Subcommand,
    args: Seq<Seq<char>>,
    i: int,
    fields: FieldsView,
    words_only: bool,
) -> Result<FieldsView, CliError>
    decreases args.len() - i,
{
    if i < 0 || i >= args.len() {
        Ok(fields)
    } else {
        match stepped(sub, args, i, fields, words_only) {
            Ok((f, used, w)) => if used == 2 {
                read_from(sub, args, i + 2, f, w)
            } else {
                read_from(sub, args, i + 1, f, w)
            },
            Err(e) => Err(e),
        }
    }
}

/// The command that a command line asks for, or why it is refused.
pub open spec fn parsed(args: Seq<Seq<char>>) -> Result<CommandView, CliError> {
    if args.len() < 2 {
        Err(CliError::MissingSubcommand)
    } else {
        match subcommand_named(args[1]) {
            None => Err(CliError::UnknownSubcommand),
            Some(sub) => match read_from(sub, args, 2, no_fields(), false) {
                Ok(fields) => fields.finished(sub),
                Err(e) => Err(e),
            },
        }
    }
}

/// The arguments as sequences of characters.
pub open spec fn arg_texts(args: Seq<&str>) -> Seq<Seq<char>> {
    args.map_values(|s: &str| s@)
}

/// The view of a parsing result.
pub open spec fn cli_view(r: Result<Cli, CliError>) -> Result<CommandView, CliError> {
    match r {
        Ok(c) => Ok(c@),
        Err(e) => Err(e),
    }
}

/// The options read so far.
struct Fields {
    namespace: Option<String>,
    secret: Option<String>,
    force_refresh: bool,
    no_refresh: bool,
    no_store: bool,
    clear_ttl: bool,
    ttl: Option<i64>,
    source_sh: Option<String>,
    source_cmd: Option<String>,
}

impl View for Fields {
    type V = FieldsView;

    closed spec fn view(&self) -> FieldsView {
        FieldsView {
            namespace: opt_text(self.namespace),
            secret: opt_text(self.secret),
            force_refresh: self.force_refresh,
            no_refresh: self.no_refresh,
            no_store: self.no_store,
            clear_ttl: self.clear_ttl,
            ttl: self.ttl,
            source_sh: opt_text(self.source_sh),
            source_cmd: opt_text(self.source_cmd),
        }
    }
}

/// One argument, cut into its parts.
enum Token {
    Separator,
    Long { name: String, value: Option<String> },
    Short { letter: char, value: Option<String> },
    Word,
}

impl View for Token {
    type V = TokenView;

    closed spec fn view(&self) -> TokenView {
        match *self {
            Token::Separator => TokenView::Separator,
            Token::Long { name, value } => TokenView::Long { name: name@, value: opt_text(value) },
            Token::Short { letter, value } => TokenView::Short { letter, value: opt_text(value) },
            Token::Word => TokenView::Word,
        }
    }
}

spec fn fields_view(r: Result<Fields, CliError>) -> Result<FieldsView, CliError> {
    match r {
        Ok(f) => Ok(f@),
        Err(e) => Err(e),
    }
}

spec fn option_view(r: Result<(Fields, bool), CliError>) -> Result<(FieldsView, bool), CliError> {
    match r {
        Ok((f, used)) => Ok((f@, used)),
        Err(e) => Err(e),
    }
}

spec fn step_view(r: Result<(Fields, usize, bool), CliError>) -> Result<
    (FieldsView, int, bool),
    CliError,
> {
    match r {
        Ok((f, used, w)) => Ok((f@, used as int, w)),
        Err(e) => Err(e),
    }
}

/// A run without `c` that ends at `c` or at the end of `s` reaches the first
/// `c`.
proof fn lemma_position_is(s: Seq<char>, c: char, k: int)
    requires
        0 <= k <= s.len(),
        forall|j: int| 0 <= j < k ==> #[trigger] s[j] != c,
        k < s.len() ==> s[k] == c,
    ensures
        position_of(s, c) == k,
    decreases k,
{
    if k > 0 {
        let rest = s.skip(1);
        assert(s[0] != c);
        assert forall|j: int| 0 <= j < k - 1 implies #[trigger] rest[j] != c by {
            assert(rest[j] == s[j + 1]);
        }
        if k - 1 < rest.len() {
            assert(rest[k - 1] == s[k]);
        }
        lemma_position_is(rest, c, k - 1);
    }
}

/// The subcommand that `word` names.
fn subcommand(word: &str) -> (r: Option<Subcommand>)
    ensures
        r == subcommand_named(word@),
{
    if same_text(word, "get") {
        Some(Subcommand::Get)
    } else if same_text(word, "delete") {
        Some(Subcommand::Delete)
    } else if same_text(word, "list") {
        Some(Subcommand::List)
    } else if same_text(word, "inspect") {
        Some(Subcommand::Inspect)
    } else if same_text(word, "edit") {
        Some(Subcommand::Edit)
    } else {
        None
    }
}

/// The option with the long name `name`.
fn option_named(name: &str) -> (r: Option<Opt>)
    ensures
        r == long_option(name@),
{
    if same_text(name, "namespace") {
        Some(Opt::Namespace)
    } else if same_text(name, "force-refresh") {
        Some(Opt::ForceRefresh)
    } else if same_text(name, "no-refresh") {
        Some(Opt::NoRefresh)
    } else if same_text(name, "no-store") {
        Some(Opt::NoStore)
    } else if same_text(name, "ttl") {
        Some(Opt::Ttl)
    } else if same_text(name, "clear-ttl") {
        Some(Opt::ClearTtl)
    } else if same_text(name, "source-sh") {
        Some(Opt::SourceSh)
    } else if same_text(name, "source-cmd") {
        Some(Opt::SourceCmd)
    } else {
        None
    }
}

/// The option with the short name `letter`.
fn option_lettered(letter: char) -> (r: Option<Opt>)
    ensures
        r == short_option(letter),
{
    if letter == 'n' {
        Some(Opt::Namespace)
    } else {
        None
    }
}

/// Whether the argument has the form of an option.
fn is_option_like(token: &str) -> (r: bool)
    ensures
        r == looks_like_option(token@),
{
    let chars = chars_of(token);
    chars.len() >= 2 && chars[0] == '-'
}

/// Cuts an argument into its parts.
fn classify(token: &str) -> (r: Token)
    ensures
        r@ == classified(token@),
{
    let chars = chars_of(token);
    let n: usize = chars.len();
    if !(n >= 2 && chars[0] == '-') {
        return Token::Word;
    }
    if chars[1] == '-' {
        if n == 2 {
            return Token::Separator;
        }
        let mut k: usize = 2;
        while k < n && chars[k] != '='
            invariant
                2 <= k <= n,
                n == chars@.len(),
                forall|j: int| 2 <= j < k ==> #[trigger] chars@[j] != '=',
            decreases n - k,
        {
            k += 1;
        }
        let ghost body = token@.skip(2);
        proof {
            assert forall|j: int| 0 <= j < k - 2 implies #[trigger] body[j] != '=' by {
                assert(body[j] == chars@[j + 2]);
            }
            if k - 2 < body.len() {
                assert(body[k - 2] == chars@[k as int]);
            }
            lemma_position_is(body, '=', k - 2);
            assert(body.take(k - 2) =~= token@.subrange(2, k as int));
        }
        let name = token.substring_char(2, k).to_owned();
        if k < n {
            proof {
                assert(body.skip(k - 2 + 1) =~= token@.subrange(k + 1, n as int));
            }
            let value = token.substring_char(k + 1, n).to_owned();
            Token::Long { name, value: Some(value) }
        } else {
            proof {
                assert(body.take(k - 2) =~= body);
            }
            Token::Long { name, value: None }
        }
    } else {
        let ghost rest = token@.skip(2);
        let letter = chars[1];
        if n == 2 {
            Token::Short { letter, value: None }
        } else if chars[2] == '=' {
            proof {
                assert(rest[0] == chars@[2]);
                assert(rest.skip(1) =~= token@.subrange(3, n as int));
            }
            Token::Short { letter, value: Some(token.substring_char(3, n).to_owned()) }
        } else {
            proof {
                assert(rest[0] == chars@[2]);
                assert(rest =~= token@.subrange(2, n as int));
            }
            Token::Short { letter, value: Some(token.substring_char(2, n).to_owned()) }
        }
    }
}

impl Opt {
    /// Whether the option takes a value.
    fn has_value(self) -> (r: bool)
        ensures
            r == self.takes_value(),
    {
        match self {
            Opt::Namespace | Opt::Ttl | Opt::SourceSh | Opt::SourceCmd => true,
            _ => false,
        }
    }
}

impl Subcommand {
    /// Whether the subcommand has the option.
    fn has(self, option: Opt) -> (r: bool)
        ensures
            r == self.accepts(option),
    {
        match self {
            Subcommand::Get => match option {
                Opt::ClearTtl => false,
                _ => true,
            },
            Subcommand::Edit => match option {
                Opt::Namespace | Opt::Ttl | Opt::ClearTtl | Opt::SourceSh | Opt::SourceCmd => true,
                _ => false,
            },
            _ => match option {
                Opt::Namespace => true,
                _ => false,
            },
        }
    }
}

impl Fields {
    fn new() -> (r: Fields)
        ensures
            r@ == no_fields(),
    {
        Fields {
            namespace: None,
            secret: None,
            force_refresh: false,
            no_refresh: false,
            no_store: false,
            clear_ttl: false,
            ttl: None,
            source_sh: None,
            source_cmd: None,
        }
    }

    fn set_value(self, option: Opt, value: &str) -> (r: Result<Fields, CliError>)
        ensures
            fields_view(r) == self@.with_value(option, value@),
    {
        let mut f = self;
        match option {
            Opt::Namespace => {
                if f.namespace.is_some() {
                    return Err(CliError::Repeated { option });
                }
                f.namespace = Some(owned(value));
            },
            Opt::Ttl => {
                if f.ttl.is_some() {
                    return Err(CliError::Repeated { option });
                }
                match parse_i64(value) {
                    Some(t) => {
                        f.ttl = Some(t);
                    },
                    None => {
                        return Err(CliError::InvalidNumber);
                    },
                }
            },
            Opt::SourceSh => {
                if f.source_sh.is_some() {
                    return Err(CliError::Repeated { option });
                }
                f.source_sh = Some(owned(value));
            },
            Opt::SourceCmd => {
                if f.source_cmd.is_some() {
                    return Err(CliError::Repeated { option });
                }
                f.source_cmd = Some(owned(value));
            },
            _ => {
                return Err(CliError::UnexpectedValue { option });
            },
        }
        Ok(f)
    }

    fn set_flag(self, option: Opt) -> (r: Result<Fields, CliError>)
        ensures
            fields_view(r) == self@.with_flag(option),
    {
        let mut f = self;
        match option {
            Opt::ForceRefresh => {
                if f.force_refresh {
                    return Err(CliError::Repeated { option });
                }
                f.force_refresh = true;
            },
            Opt::NoRefresh => {
                if f.no_refresh {
                    return Err(CliError::Repeated { option });
                }
                f.no_refresh = true;
            },
            Opt::NoStore => {
                if f.no_store {
                    return Err(CliError::Repeated { option });
                }
                f.no_store = true;
            },
            Opt::ClearTtl => {
                if f.clear_ttl {
                    return Err(CliError::Repeated { option });
                }
                f.clear_ttl = true;
            },
            _ => {
                return Err(CliError::MissingValue { option });
            },
        }
        Ok(f)
    }

    fn set_word(self, sub: Subcommand, word: &str) -> (r: Result<Fields, CliError>)
        ensures
            fields_view(r) == self@.with_word(sub, word@),
    {
        let mut f = self;
        let named = match sub {
            Subcommand::List => false,
            _ => true,
        };
        if named && f.secret.is_none() {
            f.secret = Some(owned(word));
            Ok(f)
        } else {
            Err(CliError::UnexpectedWord)
        }
    }

    fn set_option(
        self,
        sub: Subcommand,
        option: Option<Opt>,
        attached: Option<String>,
        next: Option<&str>,
    ) -> (r: Result<(Fields, bool), CliError>)
        ensures
            option_view(r) == self@.with_option(
                sub,
                option,
                opt_text(attached),
                match next {
                    Some(n) => Some(n@),
                    None => None,
                },
            ),
    {
        let o = match option {
            Some(o) => o,
            None => {
                return Err(CliError::UnknownArgument);
            },
        };
        if !sub.has(o) {
            return Err(CliError::UnknownArgument);
        }
        if o.has_value() {
            match attached {
                Some(v) => match self.set_value(o, v.as_str()) {
                    Ok(f) => Ok((f, false)),
                    Err(e) => Err(e),
                },
                None => match next {
                    Some(n) => {
                        if is_option_like(n) {
                            return Err(CliError::MissingValue { option: o });
                        }
                        match self.set_value(o, n) {
                            Ok(f) => Ok((f, true)),
                            Err(e) => Err(e),
                        }
                    },
                    None => Err(CliError::MissingValue { option: o }),
                },
            }
        } else {
            match attached {
                Some(_) => Err(CliError::UnexpectedValue { option: o }),
                None => match self.set_flag(o) {
                    Ok(f) => Ok((f, false)),
                    Err(e) => Err(e),
                },
            }
        }
    }

    fn finish(self, sub: Subcommand) -> (r: Result<Cli, CliError>)
        ensures
            cli_view(r) == self@.finished(sub),
    {
        if self.force_refresh && self.no_refresh {
            return Err(CliError::Conflict { first: Opt::ForceRefresh, second: Opt::NoRefresh });
        }
        if self.source_sh.is_some() && self.source_cmd.is_some() {
            return Err(CliError::Conflict { first: Opt::SourceSh, second: Opt::SourceCmd });
        }
        if self.ttl.is_some() && self.clear_ttl {
            return Err(CliError::Conflict { first: Opt::Ttl, second: Opt::ClearTtl });
        }
        if let Subcommand::List = sub {
            return Ok(Cli { command: Command::List { namespace: self.namespace } });
        }
        let namespace = match self.namespace {
            Some(n) => n,
            None => {
                return Err(CliError::MissingNamespace);
            },
        };
        let secret = match self.secret {
            Some(s) => s,
            None => {
                return Err(CliError::MissingSecret);
            },
        };
        let command = match sub {
            Subcommand::Get => Command::Get {
                namespace,
                secret,
                force_refresh: self.force_refresh,
                no_refresh: self.no_refresh,
                no_store: self.no_store,
                ttl: self.ttl,
                source_sh: self.source_sh,
                source_cmd: self.source_cmd,
            },
            Subcommand::Delete => Command::Delete { namespace, secret },
            Subcommand::Inspect => Command::Inspect { namespace, secret },
            _ => Command::Edit {
                namespace,
                secret,
                ttl: self.ttl,
                clear_ttl: self.clear_ttl,
                source_sh: self.source_sh,
                source_cmd: self.source_cmd,
            },
        };
        Ok(Cli { command })
    }
}

/// Reads the argument at position `i`.
fn step(sub: Subcommand, args: &[&str], i: usize, fields: Fields, words_only: bool) -> (r: Result<
    (Fields, usize, bool),
    CliError,
>)
    requires
        i < args@.len(),
    ensures
        step_view(r) == stepped(sub, arg_texts(args@), i as int, fields@, words_only),
        r matches Ok((_, used, _)) ==> used == 1 || (used == 2 && i + 1 < args@.len()),
{
    let token: &str = args[i];
    let next: Option<&str> = if i + 1 < args.len() {
        Some(args[i + 1])
    } else {
        None
    };
    proof {
        assert(arg_texts(args@)[i as int] == token@);
        if i + 1 < args@.len() {
            assert(arg_texts(args@)[i + 1] == args@[i + 1]@);
        }
    }
    let form = if words_only {
        Token::Word
    } else {
        classify(token)
    };
    match form {
        Token::Separator => Ok((fields, 1, true)),
        Token::Word => match fields.set_word(sub, token) {
            Ok(f) => Ok((f, 1, words_only)),
            Err(e) => Err(e),
        },
        Token::Long { name, value } => match fields.set_option(
            sub,
            option_named(name.as_str()),
            value,
            next,
        ) {
            Ok((f, used)) => Ok((f, if used { 2 } else { 1 }, false)),
            Err(e) => Err(e),
        },
        Token::Short { letter, value } => match fields.set_option(
            sub,
            option_lettered(letter),
            value,
            next,
        ) {
            Ok((f, used)) => Ok((f, if used { 2 } else { 1 }, false)),
            Err(e) => Err(e),
        },
    }
}

/// Reads a command line. The first argument is the program's name.
pub fn parse(args: &[&str]) -> (r: Result<Cli, CliError>)
    ensures
        cli_view(r) == parsed(arg_texts(args@)),
{
    if args.len() < 2 {
        return Err(CliError::MissingSubcommand);
    }
    let ghost texts = arg_texts(args@);
    proof {
        assert(texts[1] == args@[1]@);
    }
    let sub = match subcommand(args[1]) {
        Some(s) => s,
        None => {
            return Err(CliError::UnknownSubcommand);
        },
    };
    let mut fields = Fields::new();
    let mut words_only = false;
    let mut i: usize = 2;
    while i < args.len()
        invariant
            2 <= i <= args@.len(),
            texts == arg_texts(args@),
            subcommand_named(texts[1]) == Some(sub),
            read_from(sub, texts, 2, no_fields(), false) == read_from(
                sub,
                texts,
                i as int,
                fields@,
                words_only,
            ),
        decreases args@.len() - i,
    {
        match step(sub, args, i, fields, words_only) {
            Ok((f, used, w)) => {
                fields = f;
                words_only = w;
                i = i + used;
            },
            Err(e) => {
                return Err(e);
            },
        }
    }
    fields.finish(sub)
}

impl Cli {
    /// Reads a command line. The first argument is the program's name.
    pub fn try_parse_from<const N: usize>(args: [&str; N]) -> (r: Result<Cli, CliError>)
        ensures
            cli_view(r) == parsed(arg_texts(args@)),
    {
        parse(args.as_slice())
    }
}

/// A command that was accepted holds no two options that exclude each other.
pub proof fn lemma_parsed_excludes(args: Seq<Seq<char>>)
    ensures
        match parsed(args) {
            Ok(CommandView::Get { force_refresh, no_refresh, source_sh, source_cmd, .. }) => !(
            force_refresh && no_refresh) && !(source_sh is Some && source_cmd is Some),
            Ok(CommandView::Edit { ttl, clear_ttl, source_sh, source_cmd, .. }) => !(ttl is Some
                && clear_ttl) && !(source_sh is Some && source_cmd is Some),
            _ => true,
        },
{
}

} // verus!
