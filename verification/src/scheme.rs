//! The closed set of schemes and the two commands, with their names.

use crate::text::same_text;
use vstd::prelude::*;

verus! {

/// A supported encoding.
#[derive(Clone, Copy, Debug, PartialEq, Eq, Structural)]
pub enum Scheme {
    Base64,
    Base64Url,
    Url,
    Hex,
    Gzip,
}

/// Which half of a scheme runs.
#[derive(Clone, Copy, Debug, PartialEq, Eq, Structural)]
pub enum Command {
    Encode,
    Decode,
}

/// The schemes in the order in which they are listed.
pub open spec fn scheme_order() -> Seq<Scheme> {
    seq![Scheme::Base64, Scheme::Base64Url, Scheme::Url, Scheme::Hex, Scheme::Gzip]
}

impl Scheme {
    /// The identifier by which the scheme is chosen.
    pub open spec fn spec_name(self) -> Seq<char> {
        match self {
            Scheme::Base64 => "base64"@,
            Scheme::Base64Url => "base64-url"@,
            Scheme::Url => "url"@,
            Scheme::Hex => "hex"@,
            Scheme::Gzip => "gzip"@,
        }
    }

    /// The label under which the scheme is shown.
    pub open spec fn spec_label(self) -> Seq<char> {
        match self {
            Scheme::Base64 => "Base64 (standard)"@,
            Scheme::Base64Url => "Base64 (URL-safe)"@,
            Scheme::Url => "URL encode"@,
            Scheme::Hex => "Hex encode"@,
            Scheme::Gzip => "Gzip compress"@,
        }
    }

    /// The scheme that an identifier names, if any. Identifiers are matched
    /// as they stand: nothing is mapped to a default.
    pub open spec fn named(name: Seq<char>) -> Option<Scheme> {
        if name == Scheme::Base64.spec_name() {
            Some(Scheme::Base64)
        } else if name == Scheme::Base64Url.spec_name() {
            Some(Scheme::Base64Url)
        } else if name == Scheme::Url.spec_name() {
            Some(Scheme::Url)
        } else if name == Scheme::Hex.spec_name() {
            Some(Scheme::Hex)
        } else if name == Scheme::Gzip.spec_name() {
            Some(Scheme::Gzip)
        } else {
            None
        }
    }

    /// The scheme's identifier.
    pub fn name(self) -> (r: &'static str)
        ensures
            r@ == self.spec_name(),
    {
        match self {
            Scheme::Base64 => "base64",
            Scheme::Base64Url => "base64-url",
            Scheme::Url => "url",
            Scheme::Hex => "hex",
            Scheme::Gzip => "gzip",
        }
    }

    /// The scheme's label.
    pub fn label(self) -> (r: &'static str)
        ensures
            r@ == self.spec_label(),
    {
        match self {
            Scheme::Base64 => "Base64 (standard)",
            Scheme::Base64Url => "Base64 (URL-safe)",
            Scheme::Url => "URL encode",
            Scheme::Hex => "Hex encode",
            Scheme::Gzip => "Gzip compress",
        }
    }

    /// Looks a scheme up by its identifier.
    pub fn from_name(name: &str) -> (r: Option<Scheme>)
        ensures
            r == Scheme::named(name@),
    {
        if same_text(name, "base64") {
            Some(Scheme::Base64)
        } else if same_text(name, "base64-url") {
            Some(Scheme::Base64Url)
        } else if same_text(name, "url") {
            Some(Scheme::Url)
        } else if same_text(name, "hex") {
            Some(Scheme::Hex)
        } else if same_text(name, "gzip") {
            Some(Scheme::Gzip)
        } else {
            None
        }
    }
}

impl Command {
    /// The name by which the command is called.
    pub open spec fn spec_name(self) -> Seq<char> {
        match self {
            Command::Encode => "encode"@,
            Command::Decode => "decode"@,
        }
    }

    /// The command that a name calls, if any.
    pub open spec fn named(name: Seq<char>) -> Option<Command> {
        if name == Command::Encode.spec_name() {
            Some(Command::Encode)
        } else if name == Command::Decode.spec_name() {
            Some(Command::Decode)
        } else {
            None
        }
    }

    /// The command's name.
    pub fn name(self) -> (r: &'static str)
        ensures
            r@ == self.spec_name(),
    {
        match self {
            Command::Encode => "encode",
            Command::Decode => "decode",
        }
    }

    /// Looks a command up by its name.
    pub fn from_name(name: &str) -> (r: Option<Command>)
        ensures
            r == Command::named(name@),
    {
        if same_text(name, "encode") {
            Some(Command::Encode)
        } else if same_text(name, "decode") {
            Some(Command::Decode)
        } else {
            None
        }
    }
}

/// An identifier names a scheme exactly where it is that scheme's own: the
/// five identifiers differ from each other, and every scheme is found under
/// its identifier.
pub proof fn lemma_scheme_names(name: Seq<char>, scheme: Scheme)
    ensures
        Scheme::named(name) == Some(scheme) <==> name == scheme.spec_name(),
        Scheme::named(scheme.spec_name()) == Some(scheme),
{
    reveal_strlit("base64");
    reveal_strlit("base64-url");
    reveal_strlit("url");
    reveal_strlit("hex");
    reveal_strlit("gzip");
    assert("base64"@.len() == 6 && "base64-url"@.len() == 10 && "gzip"@.len() == 4);
    assert("url"@.len() == 3 && "hex"@.len() == 3);
    assert("url"@[0] == 'u' && "hex"@[0] == 'h');
}

/// A name calls a command exactly where it is that command's own.
pub proof fn lemma_command_names(name: Seq<char>, command: Command)
    ensures
        Command::named(name) == Some(command) <==> name == command.spec_name(),
        Command::named(command.spec_name()) == Some(command),
{
    reveal_strlit("encode");
    reveal_strlit("decode");
    assert("encode"@[0] == 'e' && "decode"@[0] == 'd');
}

/// The schemes with their labels, in the order in which they are offered.
pub fn list_schemes() -> (r: Vec<(String, String)>)
    ensures
        r@.len() == 5,
        forall|i: int|
            0 <= i < 5 ==> (#[trigger] r@[i]).0@ == scheme_order()[i].spec_name() && r@[i].1@
                == scheme_order()[i].spec_label(),
{
    let order = [Scheme::Base64, Scheme::Base64Url, Scheme::Url, Scheme::Hex, Scheme::Gzip];
    let mut entries: Vec<(String, String)> = Vec::new();
    let mut i: usize = 0;
    while i < 5
        invariant
            i <= 5,
            order@ == scheme_order(),
            entries@.len() == i,
            forall|k: int|
                0 <= k < i ==> (#[trigger] entries@[k]).0@ == scheme_order()[k].spec_name()
                    && entries@[k].1@ == scheme_order()[k].spec_label(),
        decreases 5 - i,
    {
        let scheme = order[i];
        entries.push((scheme.name().to_owned(), scheme.label().to_owned()));
        i += 1;
    }
    entries
}

} // verus!
