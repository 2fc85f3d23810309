//! The `error_chain` attributes on the enum itself: the names of the items to
//! declare, and whether they carry backtraces.

use vstd::prelude::*;
use vstd::string::StringExecFns;
use crate::error::ExpansionError;
use crate::outside::{ident_parse, parse_ident};
use crate::syntax::{result_view, Attribute, Declaration, MetaItem};
use crate::text::{copy, same};

verus! {

/// Whether an attribute is one of this derive's: its path is the single plain
/// name `error_chain`.
pub open spec fn is_error_chain(attr: Attribute) -> bool {
    &&& !attr.path.global
    &&& attr.path.segments@.len() == 1
    &&& attr.path.segments@[0].ident@ == "error_chain"@
    &&& attr.path.segments@[0].bare
}

/// Tells whether an attribute is one of this derive's.
pub fn is_error_chain_attribute(attr: &Attribute) -> (r: bool)
    ensures
        r == is_error_chain(*attr),
{
    if !attr.path.global && attr.path.segments.len() == 1 {
        let segment = &attr.path.segments[0];
        return same(segment.ident.as_str(), "error_chain") && segment.bare;
    }
    false
}

/// What the enum's attributes settle.
#[derive(Debug, PartialEq, Eq)]
pub struct Settings {
    pub error_name: String,
    pub result_ext_name: String,
    pub result_name: Option<String>,
    pub support_backtrace: bool,
}

pub struct SettingsView {
    pub error_name: Seq<char>,
    pub result_ext_name: Seq<char>,
    pub result_name: Option<Seq<char>>,
    pub support_backtrace: bool,
}

impl DeepView for Settings {
    type V = SettingsView;

    open spec fn deep_view(&self) -> SettingsView {
        SettingsView {
            error_name: self.error_name@,
            result_ext_name: self.result_ext_name@,
            result_name: self.result_name.deep_view(),
            support_backtrace: self.support_backtrace,
        }
    }
}

impl SettingsView {
    /// What holds where the enum has no attribute of this derive: the items are
    /// called `Error`, `ResultExt` and `Result`, and backtraces are carried.
    pub open spec fn initial() -> SettingsView {
        SettingsView {
            error_name: "Error"@,
            result_ext_name: "ResultExt"@,
            result_name: Some("Result"@),
            support_backtrace: true,
        }
    }
}

/// The complaint about an item of the enum's attribute that is none of the four
/// known ones.
pub open spec fn expected_top_level() -> Seq<char> {
    "Could not parse `error_chain` attribute - expected one of `error`, `result_ext`, `result`, `backtrace`"@
}

/// Whether a key is one of the four that the enum's attribute knows.
pub open spec fn is_top_level_key(key: Seq<char>) -> bool {
    key == "error"@ || key == "result_ext"@ || key == "result"@ || key == "backtrace"@
}

/// The complaint about a key whose value is neither a string nor, for
/// `backtrace`, a boolean. It names the key.
pub open spec fn misplaced(key: Seq<char>) -> Seq<char> {
    if key == "backtrace"@ {
        "Could not parse `backtrace` value - expected a string or a boolean"@
    } else if is_top_level_key(key) {
        not_an_identifier(key, "expected a string"@)
    } else {
        expected_top_level() + " but got "@ + key
    }
}

/// The complaint about a value that should have been an identifier.
pub open spec fn not_an_identifier(key: Seq<char>, reason: Seq<char>) -> Seq<char> {
    "Could not parse `"@ + key + "` value as an identifier - "@ + reason
}

/// The complaint about a `backtrace` value that is neither `true` nor `false`.
pub open spec fn not_a_boolean() -> Seq<char> {
    "Could not parse `backtrace` value - provided string was not `true` or `false`"@
}

/// The settings after `key = "value"`, or the complaint about it. `parsed` is what
/// the value reads as, taken as an identifier; it counts for the three keys that
/// give names. An empty `result` stands for no result alias at all.
pub open spec fn apply_pair(
    settings: SettingsView,
    key: Seq<char>,
    value: Seq<char>,
    parsed: Result<Seq<char>, Seq<char>>,
) -> Result<SettingsView, Seq<char>> {
    if key == "error"@ {
        match parsed {
            Ok(ident) => Ok(SettingsView { error_name: ident, ..settings }),
            Err(reason) => Err(not_an_identifier(key, reason)),
        }
    } else if key == "result_ext"@ {
        match parsed {
            Ok(ident) => Ok(SettingsView { result_ext_name: ident, ..settings }),
            Err(reason) => Err(not_an_identifier(key, reason)),
        }
    } else if key == "result"@ {
        if value == ""@ {
            Ok(SettingsView { result_name: None, ..settings })
        } else {
            match parsed {
                Ok(ident) => Ok(SettingsView { result_name: Some(ident), ..settings }),
                Err(reason) => Err(not_an_identifier(key, reason)),
            }
        }
    } else if key == "backtrace"@ {
        if value == "true"@ {
            Ok(SettingsView { support_backtrace: true, ..settings })
        } else if value == "false"@ {
            Ok(SettingsView { support_backtrace: false, ..settings })
        } else {
            Err(not_a_boolean())
        }
    } else {
        Err(expected_top_level() + " but got "@ + key)
    }
}

/// The settings after one more item of the enum's attribute, or the complaint
/// about the item. A word or a key that is none of the known ones is named in
/// the complaint.
pub open spec fn apply_item(settings: SettingsView, item: MetaItem) -> Result<
    SettingsView,
    Seq<char>,
> {
    match item {
        MetaItem::NameStr(key, value) => apply_pair(settings, key@, value@, ident_parse(value@)),
        MetaItem::NameBool(key, value) => {
            if key@ == "backtrace"@ {
                Ok(SettingsView { support_backtrace: value, ..settings })
            } else {
                Err(misplaced(key@))
            }
        },
        MetaItem::NameOther(key) => Err(misplaced(key@)),
        MetaItem::Word(word) => Err(expected_top_level() + " but got "@ + word@),
        MetaItem::Other => Err(expected_top_level()),
    }
}

/// The settings after the items from index `from` on, in order; the first
/// complaint ends it.
pub open spec fn apply_items(settings: SettingsView, items: Seq<MetaItem>, from: int) -> Result<
    SettingsView,
    Seq<char>,
>
    decreases items.len() - from,
{
    if 0 <= from < items.len() {
        match apply_item(settings, items[from]) {
            Ok(next) => apply_items(next, items, from + 1),
            Err(complaint) => Err(complaint),
        }
    } else {
        Ok(settings)
    }
}

/// The settings after one more attribute of the enum. An attribute of another
/// name changes nothing; one of this derive must be a list of items.
pub open spec fn apply_attribute(settings: SettingsView, attr: Attribute) -> Result<
    SettingsView,
    Seq<char>,
> {
    if !is_error_chain(attr) {
        Ok(settings)
    } else {
        match attr.meta {
            Some(items) => apply_items(settings, items@, 0),
            None => Err(expected_top_level()),
        }
    }
}

/// The settings after the attributes from index `from` on, in order; the first
/// complaint ends it.
pub open spec fn apply_attributes(
    settings: SettingsView,
    attrs: Seq<Attribute>,
    from: int,
) -> Result<SettingsView, Seq<char>>
    decreases attrs.len() - from,
{
    if 0 <= from < attrs.len() {
        match apply_attribute(settings, attrs[from]) {
            Ok(next) => apply_attributes(next, attrs, from + 1),
            Err(complaint) => Err(complaint),
        }
    } else {
        Ok(settings)
    }
}

/// The name under which the expansion brings the support crate into scope: the
/// error's name followed by `_error_chain`. Two enums of one scope whose errors
/// share a name share this name too.
pub open spec fn support_name(error_name: Seq<char>) -> Seq<char> {
    error_name + "_error_chain"@
}

/// The names and switches that an expansion works with.
#[derive(Debug, PartialEq, Eq)]
pub struct TopLevelProperties {
    pub error_kind_name: String,
    pub error_kind_vis: String,
    pub error_name: String,
    pub result_ext_name: String,
    /// The name of the result alias; `None` where none is to be declared.
    pub result_name: Option<String>,
    pub error_chain_name: String,
    pub support_backtrace: bool,
}

pub struct TopLevelPropertiesView {
    pub error_kind_name: Seq<char>,
    pub error_kind_vis: Seq<char>,
    pub error_name: Seq<char>,
    pub result_ext_name: Seq<char>,
    pub result_name: Option<Seq<char>>,
    pub error_chain_name: Seq<char>,
    pub support_backtrace: bool,
}

impl DeepView for TopLevelProperties {
    type V = TopLevelPropertiesView;

    open spec fn deep_view(&self) -> TopLevelPropertiesView {
        TopLevelPropertiesView {
            error_kind_name: self.error_kind_name@,
            error_kind_vis: self.error_kind_vis@,
            error_name: self.error_name@,
            result_ext_name: self.result_ext_name@,
            result_name: self.result_name.deep_view(),
            error_chain_name: self.error_chain_name@,
            support_backtrace: self.support_backtrace,
        }
    }
}

/// The properties that a declaration asks for, or the complaint about the first
/// of its attributes that cannot be read.
pub open spec fn top_level(ast: Declaration) -> Result<TopLevelPropertiesView, Seq<char>> {
    match apply_attributes(SettingsView::initial(), ast.attrs@, 0) {
        Err(complaint) => Err(complaint),
        Ok(settings) => properties_with(
            settings,
            ast,
            ident_parse(support_name(settings.error_name)),
        ),
    }
}

/// The properties of a declaration with these settings, where `parsed` is what
/// the support crate's name reads as, taken as an identifier.
pub open spec fn properties_with(
    settings: SettingsView,
    ast: Declaration,
    parsed: Result<Seq<char>, Seq<char>>,
) -> Result<TopLevelPropertiesView, Seq<char>> {
    match parsed {
        Err(reason) => Err(
            "Could not generate error_chain crate name as a valid ident - "@ + reason,
        ),
        Ok(error_chain_name) => Ok(
            TopLevelPropertiesView {
                error_kind_name: ast.ident@,
                error_kind_vis: ast.vis@,
                error_name: settings.error_name,
                result_ext_name: settings.result_ext_name,
                result_name: settings.result_name,
                error_chain_name,
                support_backtrace: settings.support_backtrace,
            },
        ),
    }
}

impl Settings {
    /// The settings of an enum without attributes of this derive.
    pub fn initial() -> (r: Settings)
        ensures
            r.deep_view() == SettingsView::initial(),
    {
        Settings {
            error_name: String::from_str("Error"),
            result_ext_name: String::from_str("ResultExt"),
            result_name: Some(String::from_str("Result")),
            support_backtrace: true,
        }
    }

    /// The name that the value of `key` gives, where `parsed` is what the value
    /// reads as, taken as an identifier.
    pub fn identifier(key: &str, parsed: Result<String, String>) -> (r: Result<
        String,
        ExpansionError,
    >)
        ensures
            result_view(r) == match result_view(parsed) {
                Ok(ident) => Ok::<Seq<char>, Seq<char>>(ident),
                Err(reason) => Err(not_an_identifier(key@, reason)),
            },
    {
        match parsed {
            Ok(ident) => Ok(ident),
            Err(reason) => Err(
                ExpansionError::new(
                    String::from_str("Could not parse `").concat(key).concat(
                        "` value as an identifier - ",
                    ).concat(reason.as_str()),
                ),
            ),
        }
    }

    fn misplaced(key: &str) -> (r: ExpansionError)
        ensures
            r.deep_view() == misplaced(key@),
    {
        if same(key, "backtrace") {
            ExpansionError::new(
                String::from_str(
                    "Could not parse `backtrace` value - expected a string or a boolean",
                ),
            )
        } else if same(key, "error") || same(key, "result_ext") || same(key, "result") {
            ExpansionError::new(
                String::from_str("Could not parse `").concat(key).concat(
                    "` value as an identifier - ",
                ).concat("expected a string"),
            )
        } else {
            ExpansionError::new(
                String::from_str(
                    "Could not parse `error_chain` attribute - expected one of `error`, `result_ext`, `result`, `backtrace`",
                ).concat(" but got ").concat(key),
            )
        }
    }

    /// Takes `key = "value"` into account, where `parsed` is what the value reads
    /// as, taken as an identifier.
    pub fn pair(self, key: &str, value: &str, parsed: Result<String, String>) -> (r: Result<
        Settings,
        ExpansionError,
    >)
        ensures
            result_view(r) == apply_pair(self.deep_view(), key@, value@, result_view(parsed)),
    {
        let mut settings = self;
        if same(key, "error") {
            settings.error_name = Settings::identifier(key, parsed)?;
        } else if same(key, "result_ext") {
            settings.result_ext_name = Settings::identifier(key, parsed)?;
        } else if same(key, "result") {
            if same(value, "") {
                settings.result_name = None;
            } else {
                settings.result_name = Some(
                    Settings::identifier(key, parsed)?,
                );
            }
        } else if same(key, "backtrace") {
            if same(value, "true") {
                settings.support_backtrace = true;
            } else if same(value, "false") {
                settings.support_backtrace = false;
            } else {
                return Err(
                    ExpansionError::new(
                        String::from_str(
                            "Could not parse `backtrace` value - provided string was not `true` or `false`",
                        ),
                    ),
                );
            }
        } else {
            return Err(
                ExpansionError::new(
                    String::from_str(
                        "Could not parse `error_chain` attribute - expected one of `error`, `result_ext`, `result`, `backtrace`",
                    ).concat(" but got ").concat(key),
                ),
            );
        }
        Ok(settings)
    }

    /// Takes one item of the enum's attribute into account.
    pub fn apply(self, item: &MetaItem) -> (r: Result<Settings, ExpansionError>)
        ensures
            result_view(r) == apply_item(self.deep_view(), *item),
    {
        let mut settings = self;
        match item {
            MetaItem::NameStr(key, value) => {
                return settings.pair(key.as_str(), value.as_str(), parse_ident(value.as_str()));
            },
            MetaItem::NameBool(key, value) => {
                if same(key.as_str(), "backtrace") {
                    settings.support_backtrace = *value;
                } else {
                    return Err(Settings::misplaced(key.as_str()));
                }
            },
            MetaItem::NameOther(key) => {
                return Err(Settings::misplaced(key.as_str()));
            },
            MetaItem::Word(word) => {
                return Err(
                    ExpansionError::new(
                        String::from_str(
                            "Could not parse `error_chain` attribute - expected one of `error`, `result_ext`, `result`, `backtrace`",
                        ).concat(" but got ").concat(word.as_str()),
                    ),
                );
            },
            MetaItem::Other => {
                return Err(
                    ExpansionError::new(
                        String::from_str(
                            "Could not parse `error_chain` attribute - expected one of `error`, `result_ext`, `result`, `backtrace`",
                        ),
                    ),
                );
            },
        }
        Ok(settings)
    }

    /// Takes one attribute of the enum into account.
    pub fn apply_attribute(self, attr: &Attribute) -> (r: Result<Settings, ExpansionError>)
        ensures
            result_view(r) == apply_attribute(self.deep_view(), *attr),
    {
        if !is_error_chain_attribute(attr) {
            return Ok(self);
        }
        match &attr.meta {
            Some(items) => {
                let ghost start = self.deep_view();
                let mut settings = self;
                let mut i: usize = 0;
                while i < items.len()
                    invariant
                        i <= items.len(),
                        start == self.deep_view(),
                        apply_items(settings.deep_view(), items@, i as int) == apply_attribute(
                            start,
                            *attr,
                        ),
                    decreases items.len() - i,
                {
                    settings = match settings.apply(&items[i]) {
                        Ok(next) => next,
                        Err(complaint) => {
                            return Err(complaint);
                        },
                    };
                    i += 1;
                }
                Ok(settings)
            },
            None => Err(
                ExpansionError::new(
                    String::from_str(
                        "Could not parse `error_chain` attribute - expected one of `error`, `result_ext`, `result`, `backtrace`",
                    ),
                ),
            ),
        }
    }
}

/// The name under which the expansion brings the support crate into scope.
pub fn support_crate_name(error_name: &str) -> (r: String)
    ensures
        r@ == support_name(error_name@),
{
    String::from_str(error_name).concat("_error_chain")
}

impl TopLevelProperties {
    /// Reads the properties off a declaration: the names default to `Error`,
    /// `ResultExt` and `Result`, and each attribute of this derive may change
    /// them, the later one winning.
    pub fn from(ast: &Declaration) -> (r: Result<TopLevelProperties, ExpansionError>)
        ensures
            result_view(r) == top_level(*ast),
    {
        let mut settings = Settings::initial();
        let mut i: usize = 0;
        while i < ast.attrs.len()
            invariant
                i <= ast.attrs.len(),
                apply_attributes(settings.deep_view(), ast.attrs@, i as int) == apply_attributes(
                    SettingsView::initial(),
                    ast.attrs@,
                    0,
                ),
            decreases ast.attrs.len() - i,
        {
            settings = settings.apply_attribute(&ast.attrs[i])?;
            i += 1;
        }
        let support = support_crate_name(settings.error_name.as_str());
        TopLevelProperties::with_support_name(settings, ast, parse_ident(support.as_str()))
    }

    /// The properties of a declaration with these settings, where `parsed` is
    /// what the support crate's name reads as, taken as an identifier.
    pub fn with_support_name(
        settings: Settings,
        ast: &Declaration,
        parsed: Result<String, String>,
    ) -> (r: Result<TopLevelProperties, ExpansionError>)
        ensures
            result_view(r) == properties_with(settings.deep_view(), *ast, result_view(parsed)),
    {
        let error_chain_name = match parsed {
            Ok(name) => name,
            Err(reason) => {
                return Err(
                    ExpansionError::new(
                        String::from_str(
                            "Could not generate error_chain crate name as a valid ident - ",
                        ).concat(reason.as_str()),
                    ),
                );
            },
        };
        Ok(
            TopLevelProperties {
                error_kind_name: copy(&ast.ident),
                error_kind_vis: copy(&ast.vis),
                error_name: settings.error_name,
                result_ext_name: settings.result_ext_name,
                result_name: settings.result_name,
                error_chain_name,
                support_backtrace: settings.support_backtrace,
            },
        )
    }
}

} // verus!
