//! The query that asks the extension store's update service for a package.

use vstd::prelude::*;
use vstd::string::StringExecFns;

verus! {

/// The address of the update service that answers a [`ChromeCRXQuery`].
pub const UPDATE_SERVICE_URL: &'static str = "https://clients2.google.com/service/update2/crx";

/// Whether two texts are the same, character for character.
fn same_text(left: &str, right: &str) -> (same: bool)
    ensures
        same == (left@ == right@),
{
    left.to_owned() == right.to_owned()
}

/// Possible product ids.
#[derive(Debug, Clone, Copy, PartialEq, Eq, Structural)]
pub enum ProductId {
    ChromeCRX,
    ChromiumCRX,
}

impl ProductId {
    /// The word that the update service knows the product by.
    pub open spec fn name(self) -> Seq<char> {
        match self {
            ProductId::ChromeCRX => "chromecrx"@,
            ProductId::ChromiumCRX => "chromiumcrx"@,
        }
    }

    /// The product's word, as it goes into the query.
    pub fn as_str(&self) -> (text: &'static str)
        ensures
            text@ == self.name(),
    {
        match self {
            ProductId::ChromeCRX => "chromecrx",
            ProductId::ChromiumCRX => "chromiumcrx",
        }
    }

    /// The product that `text` is the word of, if it is the word of one.
    /// Upper and lower case are told apart.
    pub fn from_name(text: &str) -> (found: Option<Self>)
        ensures
            match found {
                Some(product) => product.name() == text@,
                None => forall|product: Self| product.name() != text@,
            },
    {
        if same_text(text, "chromecrx") {
            Some(ProductId::ChromeCRX)
        } else if same_text(text, "chromiumcrx") {
            Some(ProductId::ChromiumCRX)
        } else {
            None
        }
    }

    /// No two products share a word.
    pub proof fn lemma_names_differ(self, other: Self)
        requires
            self != other,
        ensures
            self.name() != other.name(),
    {
        reveal_strlit("chromecrx");
        reveal_strlit("chromiumcrx");
        assert("chromecrx"@.len() != "chromiumcrx"@.len());
    }
}

/// Types of operating systems.
#[derive(Debug, Clone, Copy, PartialEq, Eq, Structural)]
pub enum OperatingSystem {
    Windows,
    Linux,
    MacOS,
    ChromeOS,
    BSD,
    Android,
}

impl OperatingSystem {
    /// The word that the update service knows the operating system by.
    pub open spec fn name(self) -> Seq<char> {
        match self {
            OperatingSystem::Windows => "win"@,
            OperatingSystem::Linux => "linux"@,
            OperatingSystem::MacOS => "mac"@,
            OperatingSystem::ChromeOS => "cros"@,
            OperatingSystem::BSD => "openbsd"@,
            OperatingSystem::Android => "android"@,
        }
    }

    /// The operating system's word, as it goes into the query.
    pub fn as_str(&self) -> (text: &'static str)
        ensures
            text@ == self.name(),
    {
        match self {
            OperatingSystem::Windows => "win",
            OperatingSystem::Linux => "linux",
            OperatingSystem::MacOS => "mac",
            OperatingSystem::ChromeOS => "cros",
            OperatingSystem::BSD => "openbsd",
            OperatingSystem::Android => "android",
        }
    }

    /// The operating system that `text` is the word of, if it is the word
    /// of one. Upper and lower case are told apart.
    pub fn from_name(text: &str) -> (found: Option<Self>)
        ensures
            match found {
                Some(os) => os.name() == text@,
                None => forall|os: Self| os.name() != text@,
            },
    {
        if same_text(text, "win") {
            Some(OperatingSystem::Windows)
        } else if same_text(text, "linux") {
            Some(OperatingSystem::Linux)
        } else if same_text(text, "mac") {
            Some(OperatingSystem::MacOS)
        } else if same_text(text, "cros") {
            Some(OperatingSystem::ChromeOS)
        } else if same_text(text, "openbsd") {
            Some(OperatingSystem::BSD)
        } else if same_text(text, "android") {
            Some(OperatingSystem::Android)
        } else {
            None
        }
    }

    /// No two operating systems share a word.
    pub proof fn lemma_names_differ(self, other: Self)
        requires
            self != other,
        ensures
            self.name() != other.name(),
    {
        reveal_strlit("win");
        reveal_strlit("linux");
        reveal_strlit("mac");
        reveal_strlit("cros");
        reveal_strlit("openbsd");
        reveal_strlit("android");
        assert("win"@.len() == 3 && "mac"@.len() == 3 && "cros"@.len() == 4);
        assert("linux"@.len() == 5 && "openbsd"@.len() == 7 && "android"@.len() == 7);
        assert("win"@[0] != "mac"@[0]);
        assert("openbsd"@[0] != "android"@[0]);
    }
}

/// Types of architecture.
#[derive(Debug, Clone, Copy, PartialEq, Eq, Structural)]
pub enum Architecture {
    ARM,
    Intel32,
    AMD64,
}

impl Architecture {
    /// The word that the update service knows the architecture by.
    pub open spec fn name(self) -> Seq<char> {
        match self {
            Architecture::ARM => "arm"@,
            Architecture::Intel32 => "x86-32"@,
            Architecture::AMD64 => "x86-64"@,
        }
    }

    /// The architecture's word, as it goes into the query.
    pub fn as_str(&self) -> (text: &'static str)
        ensures
            text@ == self.name(),
    {
        match self {
            Architecture::ARM => "arm",
            Architecture::Intel32 => "x86-32",
            Architecture::AMD64 => "x86-64",
        }
    }

    /// The architecture that `text` is the word of, if it is the word of
    /// one. Upper and lower case are told apart.
    pub fn from_name(text: &str) -> (found: Option<Self>)
        ensures
            match found {
                Some(arch) => arch.name() == text@,
                None => forall|arch: Self| arch.name() != text@,
            },
    {
        if same_text(text, "arm") {
            Some(Architecture::ARM)
        } else if same_text(text, "x86-32") {
            Some(Architecture::Intel32)
        } else if same_text(text, "x86-64") {
            Some(Architecture::AMD64)
        } else {
            None
        }
    }

    /// No two architectures share a word.
    pub proof fn lemma_names_differ(self, other: Self)
        requires
            self != other,
        ensures
            self.name() != other.name(),
    {
        reveal_strlit("arm");
        reveal_strlit("x86-32");
        reveal_strlit("x86-64");
        assert("arm"@.len() == 3 && "x86-32"@.len() == 6 && "x86-64"@.len() == 6);
        assert("x86-32"@[4] != "x86-64"@[4]);
    }
}

/// The query parameters sent to the update service for Chrome.
pub struct ChromeCRXQuery<'a> {
    pub response: &'a str,
    pub os: OperatingSystem,
    pub arch: Architecture,
    pub os_arch: Architecture,
    pub nacl_arch: Architecture,
    /// Omitting this value is allowed, but add it just in case.
    pub prod: ProductId,
    /// Channel is "unknown" on Chromium on ArchLinux, so using "unknown" will probably be fine for everyone.
    pub prodchannel: &'a str,
    /// The store answers with status 204 where this names a browser older
    /// than version 31.0.1609.0.
    pub prodversion: &'a str,
    pub acceptformat: &'a str,
    /// The id of the extension that is asked for.
    pub x: &'a str,
}

impl<'a> ChromeCRXQuery<'a> {
    /// The parameters of the query, each a name and a value, in the order
    /// in which they are sent. The extension's id goes out as `id=`, the
    /// id, and `&uc`.
    pub open spec fn pairs(self) -> Seq<(Seq<char>, Seq<char>)> {
        seq![
            ("response"@, self.response@),
            ("os"@, self.os.name()),
            ("arch"@, self.arch.name()),
            ("os_arch"@, self.os_arch.name()),
            ("nacl_arch"@, self.nacl_arch.name()),
            ("prod"@, self.prod.name()),
            ("prodchannel"@, self.prodchannel@),
            ("prodversion"@, self.prodversion@),
            ("acceptformat"@, self.acceptformat@),
            ("x"@, "id="@ + self.x@ + "&uc"@),
        ]
    }

    /// Converts to a list of names and values, the form in which an HTTP
    /// client takes the parameters of a query.
    pub fn to_vec(&self) -> (pairs: Vec<(String, String)>)
        ensures
            pairs.deep_view() == self.pairs(),
    {
        let mut pairs: Vec<(String, String)> = Vec::new();
        pairs.push(("response".to_owned(), self.response.to_owned()));
        pairs.push(("os".to_owned(), self.os.as_str().to_owned()));
        pairs.push(("arch".to_owned(), self.arch.as_str().to_owned()));
        pairs.push(("os_arch".to_owned(), self.os_arch.as_str().to_owned()));
        pairs.push(("nacl_arch".to_owned(), self.nacl_arch.as_str().to_owned()));
        pairs.push(("prod".to_owned(), self.prod.as_str().to_owned()));
        pairs.push(("prodchannel".to_owned(), self.prodchannel.to_owned()));
        pairs.push(("prodversion".to_owned(), self.prodversion.to_owned()));
        pairs.push(("acceptformat".to_owned(), self.acceptformat.to_owned()));
        pairs.push(("x".to_owned(), "id=".to_owned().concat(self.x).concat("&uc")));
        assert(pairs.deep_view() =~= self.pairs());
        pairs
    }
}

impl Default for ChromeCRXQuery<'_> {
    /// A query for Chrome on 64-bit Windows that accepts both package
    /// formats and names no extension yet.
    fn default() -> (query: Self)
        ensures
            query.response@ == "redirect"@,
            query.os == OperatingSystem::Windows,
            query.arch == Architecture::AMD64,
            query.os_arch == Architecture::AMD64,
            query.nacl_arch == Architecture::AMD64,
            query.prod == ProductId::ChromeCRX,
            query.prodchannel@ == "unknown"@,
            query.prodversion@ == "9999.0.9999.0"@,
            query.acceptformat@ == "crx2,crx3"@,
            query.x@ == ""@,
    {
        Self {
            response: "redirect",
            os: OperatingSystem::Windows,
            arch: Architecture::AMD64,
            os_arch: Architecture::AMD64,
            nacl_arch: Architecture::AMD64,
            prod: ProductId::ChromeCRX,
            prodchannel: "unknown",
            prodversion: "9999.0.9999.0",
            acceptformat: "crx2,crx3",
            x: "",
        }
    }
}

} // verus!
