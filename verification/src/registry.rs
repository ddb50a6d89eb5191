//! The format registry: which helper package exports which format.

use crate::error::Error;
use crate::error::ErrorView;
use crate::ident::lemma_parse_text;
use crate::ident::lemma_text_parse;
use crate::ident::parse;
use crate::ident::IdentView;
use crate::ident::PackageIdent;
use crate::platform::Platform;
use crate::platform::PlatformView;
use crate::text::same_text;
use crate::ui::MessageView;
use crate::ui::Ui;
use vstd::prelude::*;

verus! {

/// A helper as the registry names it.
pub struct Helper {
    /// The string form of the helper package's identifier.
    pub ident: Seq<char>,
    /// The name of the helper's executable.
    pub cmd: Seq<char>,
}

/// The registry: the helper for each format keyword. Keywords are matched as
/// they are written, upper and lower case apart.
pub open spec fn helper_for(keyword: Seq<char>) -> Option<Helper> {
    if keyword == "docker"@ {
        Some(Helper { ident: "core/hab-pkg-dockerize"@, cmd: "hab-pkg-dockerize"@ })
    } else if keyword == "aci"@ {
        Some(Helper { ident: "core/hab-pkg-aci"@, cmd: "hab-pkg-aci"@ })
    } else if keyword == "mesos"@ {
        Some(Helper { ident: "core/hab-pkg-mesosize"@, cmd: "hab-pkg-mesosize"@ })
    } else if keyword == "tar"@ {
        Some(Helper { ident: "core/hab-pkg-tarize"@, cmd: "hab-pkg-tarize"@ })
    } else {
        None
    }
}

/// A resolved export format: the helper package and the executable in it that
/// does the export.
#[derive(Debug, PartialEq, Eq)]
pub struct ExportFormat {
    pkg_ident: PackageIdent,
    cmd: String,
}

/// The mathematical value of an [`ExportFormat`].
pub struct FormatView {
    pub pkg_ident: IdentView,
    pub cmd: Seq<char>,
}

impl FormatView {
    /// The format is one of the registry's: some keyword has this command and
    /// an identifier that reads as this one.
    pub open spec fn registered(self) -> bool {
        exists|keyword: Seq<char>|
            #![trigger helper_for(keyword)]
            helper_for(keyword) matches Some(helper) && helper.cmd == self.cmd && parse(
                helper.ident,
            ) == Some(self.pkg_ident)
    }
}

impl View for ExportFormat {
    type V = FormatView;

    closed spec fn view(&self) -> FormatView {
        FormatView { pkg_ident: self.pkg_ident@, cmd: self.cmd@ }
    }
}

/// Every helper of the registry has a command and an identifier that are not
/// empty. The identifier reads as the package of the origin `core` that is
/// named after the command, with no version pinned.
pub proof fn lemma_helper_not_empty(keyword: Seq<char>)
    ensures
        helper_for(keyword) matches Some(helper) ==> {
            &&& helper.cmd.len() > 0
            &&& helper.ident.len() > 0
            &&& parse(helper.ident) matches Some(ident)
            &&& ident.origin == "core"@
            &&& ident.origin.len() > 0
            &&& ident.name == helper.cmd
            &&& ident.version is None
            &&& ident.release is None
        },
{
    reveal_strlit("core");
    reveal_strlit("hab-pkg-dockerize");
    reveal_strlit("hab-pkg-aci");
    reveal_strlit("hab-pkg-mesosize");
    reveal_strlit("hab-pkg-tarize");
    reveal_strlit("core/hab-pkg-dockerize");
    reveal_strlit("core/hab-pkg-aci");
    reveal_strlit("core/hab-pkg-mesosize");
    reveal_strlit("core/hab-pkg-tarize");
    if helper_for(keyword) is Some {
        let helper = helper_for(keyword)->0;
        let v = IdentView { origin: "core"@, name: helper.cmd, version: None, release: None };
        assert(v.text() =~= helper.ident);
        lemma_parse_text(v);
    }
}

/// Each helper of the registry belongs to one keyword: no two keywords share a
/// command or an identifier.
pub proof fn lemma_helper_specific(a: Seq<char>, b: Seq<char>)
    requires
        a != b,
        helper_for(a) is Some,
        helper_for(b) is Some,
    ensures
        helper_for(a)->0.cmd != helper_for(b)->0.cmd,
        helper_for(a)->0.ident != helper_for(b)->0.ident,
        parse(helper_for(a)->0.ident) != parse(helper_for(b)->0.ident),
{
    reveal_strlit("hab-pkg-dockerize");
    reveal_strlit("hab-pkg-aci");
    reveal_strlit("hab-pkg-mesosize");
    reveal_strlit("hab-pkg-tarize");
    reveal_strlit("core/hab-pkg-dockerize");
    reveal_strlit("core/hab-pkg-aci");
    reveal_strlit("core/hab-pkg-mesosize");
    reveal_strlit("core/hab-pkg-tarize");
    lemma_helper_not_empty(a);
    lemma_helper_not_empty(b);
}

/// A format of the registry never has an empty command or an empty
/// identifier, and its identifier can be read back from its string form.
pub proof fn lemma_registered_not_empty(format: FormatView)
    requires
        format.registered(),
    ensures
        format.cmd.len() > 0,
        format.pkg_ident.origin.len() > 0,
        format.pkg_ident.name.len() > 0,
        format.pkg_ident.text().len() > 0,
        format.pkg_ident.wf(),
{
    let keyword = choose|keyword: Seq<char>|
        #![trigger helper_for(keyword)]
        helper_for(keyword) matches Some(helper) && helper.cmd == format.cmd && parse(
            helper.ident,
        ) == Some(format.pkg_ident);
    lemma_helper_not_empty(keyword);
    lemma_text_parse(helper_for(keyword)->0.ident);
}

/// The warning that a platform which cannot export gives for `keyword`.
pub open spec fn format_warning(keyword: Seq<char>) -> Seq<char> {
    "\u{2205} Exporting "@ + keyword
        + " packages from this operating system is not yet supported. Try running this command again on a 64-bit Linux operating system.\n"@
}

impl ExportFormat {
    #[verifier::type_invariant]
    spec fn from_registry(self) -> bool {
        self@.registered()
    }

    /// The identifier of the helper package.
    pub fn pkg_ident(&self) -> (r: &PackageIdent)
        ensures
            r@ == self@.pkg_ident,
            self@.registered(),
    {
        proof {
            use_type_invariant(self);
        }
        &self.pkg_ident
    }

    /// The name of the helper's executable.
    pub fn cmd(&self) -> (r: &str)
        ensures
            r@ == self@.cmd,
            self@.registered(),
    {
        proof {
            use_type_invariant(self);
        }
        self.cmd.as_str()
    }
}

impl Clone for ExportFormat {
    fn clone(&self) -> (r: Self)
        ensures
            r@ == self@,
    {
        proof {
            use_type_invariant(self);
        }
        ExportFormat { pkg_ident: self.pkg_ident.clone(), cmd: self.cmd.clone() }
    }
}

/// Builds the format of one registry entry.
fn entry(ident: &str, cmd: &str) -> (r: Result<ExportFormat, Error>)
    requires
        exists|keyword: Seq<char>|
            #![trigger helper_for(keyword)]
            helper_for(keyword) == Some(Helper { ident: ident@, cmd: cmd@ }),
    ensures
        r matches Ok(format) && format@.cmd == cmd@ && parse(ident@) == Some(format@.pkg_ident),
{
    proof {
        let keyword = choose|keyword: Seq<char>|
            #![trigger helper_for(keyword)]
            helper_for(keyword) == Some(Helper { ident: ident@, cmd: cmd@ });
        lemma_helper_not_empty(keyword);
    }
    match PackageIdent::from_str(ident) {
        Ok(pkg_ident) => Ok(ExportFormat { pkg_ident, cmd: cmd.to_owned() }),
        Err(e) => Err(e),
    }
}

/// Looks `value` up in the registry.
fn lookup(value: &str) -> (r: Result<ExportFormat, Error>)
    ensures
        match helper_for(value@) {
            Some(helper) => r matches Ok(format) && format@.cmd == helper.cmd && parse(
                helper.ident,
            ) == Some(format@.pkg_ident),
            None => r matches Err(e) && e@ == ErrorView::UnsupportedFormat(value@),
        },
{
    if same_text(value, "docker") {
        entry("core/hab-pkg-dockerize", "hab-pkg-dockerize")
    } else if same_text(value, "aci") {
        entry("core/hab-pkg-aci", "hab-pkg-aci")
    } else if same_text(value, "mesos") {
        entry("core/hab-pkg-mesosize", "hab-pkg-mesosize")
    } else if same_text(value, "tar") {
        entry("core/hab-pkg-tarize", "hab-pkg-tarize")
    } else {
        Err(Error::UnsupportedFormat(value.to_owned()))
    }
}

/// Tells the user that this platform cannot export `value` packages.
fn refuse(ui: &mut Ui, value: &str) -> (e: Error)
    ensures
        final(ui)@ == old(ui)@.push(MessageView::Warn(format_warning(value@))).push(
            MessageView::Br,
        ),
        e@ == ErrorView::UnsupportedFormat(value@),
{
    let mut text = "\u{2205} Exporting ".to_owned();
    text.append(value);
    text.append(
        " packages from this operating system is not yet supported. Try running this command again on a 64-bit Linux operating system.\n",
    );
    ui.warn(text);
    ui.br();
    Error::UnsupportedFormat(value.to_owned())
}

/// Resolves the format keyword `value` to its helper.
///
/// Where exports work, the keywords of the registry resolve and every other
/// string is refused as an unsupported format; nothing is recorded on `ui`.
/// Where exports do not work, every keyword is refused as an unsupported
/// format, after a warning that names it and a blank line.
pub fn format_for(ui: &mut Ui, platform: &Platform, value: &str) -> (r: Result<ExportFormat, Error>)
    ensures
        match (platform@, helper_for(value@)) {
            (PlatformView::Supported, Some(helper)) => {
                &&& final(ui)@ == old(ui)@
                &&& r matches Ok(format)
                &&& format@.cmd == helper.cmd
                &&& parse(helper.ident) == Some(format@.pkg_ident)
                &&& format@.registered()
            },
            (PlatformView::Supported, None) => {
                &&& final(ui)@ == old(ui)@
                &&& r matches Err(e)
                &&& e@ == ErrorView::UnsupportedFormat(value@)
            },
            (PlatformView::Unsupported(_), _) => {
                &&& final(ui)@ == old(ui)@.push(MessageView::Warn(format_warning(value@))).push(
                    MessageView::Br,
                )
                &&& r matches Err(e)
                &&& e@ == ErrorView::UnsupportedFormat(value@)
            },
        },
{
    match platform {
        Platform::Supported => lookup(value),
        Platform::Unsupported(_) => Err(refuse(ui, value)),
    }
}

} // verus!
