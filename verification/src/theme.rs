//! The colours and the font of the page around the cleaner.

use vstd::prelude::*;
use vstd::string::StringExecFns;

verus! {

/// A theme: four style values, each kept as the text a style sheet takes.
#[derive(Debug, Clone, PartialEq)]
pub struct Theme {
    pub body_background: String,
    pub font_family: String,
    pub font_size: String,
    pub font_color: String,
}

impl Theme {
    /// Whether the theme has the font every built-in theme shares.
    pub open spec fn has_default_font(self) -> bool {
        self.font_family@ == "Open Sans"@ && self.font_size@ == "18px"@
    }

    /// What [`Theme::to_string`] writes for the theme.
    pub open spec fn description(self) -> Seq<char> {
        "body_background="@ + self.body_background@ + ", "@ + "font_family="@ + self.font_family@
            + ", "@ + "font_size="@ + self.font_size@ + ", "@ + "font_color="@
            + self.font_color@
    }

    /// Black text on white, in the default font.
    pub fn light() -> (theme: Self)
        ensures
            theme.body_background@ == "#ffffff"@,
            theme.font_color@ == "#000000"@,
            theme.has_default_font(),
    {
        Theme {
            body_background: "#ffffff".to_owned(),
            font_family: "Open Sans".to_owned(),
            font_size: "18px".to_owned(),
            font_color: "#000000".to_owned(),
        }
    }

    /// White text on dark grey, in the default font.
    pub fn dark() -> (theme: Self)
        ensures
            theme.body_background@ == "#2d2d2d"@,
            theme.font_color@ == "#ffffff"@,
            theme.has_default_font(),
    {
        Theme {
            body_background: "#2d2d2d".to_owned(),
            font_family: "Open Sans".to_owned(),
            font_size: "18px".to_owned(),
            font_color: "#ffffff".to_owned(),
        }
    }

    /// The four values on one line, each as `name=value`, separated by `, `.
    pub fn to_string(&self) -> (line: String)
        ensures
            line@ == self.description(),
    {
        let mut line = String::from_str("body_background=");
        line.append(self.body_background.as_str());
        line.append(", ");
        line.append("font_family=");
        line.append(self.font_family.as_str());
        line.append(", ");
        line.append("font_size=");
        line.append(self.font_size.as_str());
        line.append(", ");
        line.append("font_color=");
        line.append(self.font_color.as_str());
        line
    }
}

impl Default for Theme {
    /// White text on black, in the default font.
    fn default() -> (theme: Self)
        ensures
            theme.body_background@ == "#000000"@,
            theme.font_color@ == "#ffffff"@,
            theme.has_default_font(),
    {
        Theme {
            body_background: "#000000".to_owned(),
            font_family: "Open Sans".to_owned(),
            font_size: "18px".to_owned(),
            font_color: "#ffffff".to_owned(),
        }
    }
}

} // verus!
