//! What the native library tells about itself.

use vstd::prelude::*;

verus! {

/// ProductInfo contains metadata about the native library.
#[derive(Debug)]
pub struct ProductInfo {
    /// The name of the product.
    pub product: String,
    /// The family of products that it belongs to.
    pub family: String,
    /// Its version.
    pub version: String,
    /// The date of its release.
    pub release_date: String,
    /// Who produced it.
    pub producer: String,
    /// Whether a license is set.
    pub is_licensed: bool,
}

/// The text of a truth value: `true` or `false`.
pub open spec fn bool_text(b: bool) -> Seq<char> {
    if b {
        "true"@
    } else {
        "false"@
    }
}

impl ProductInfo {
    /// The text by which the metadata is shown: six lines, each a label
    /// padded to thirteen characters and a value.
    pub open spec fn display_text(&self) -> Seq<char> {
        "Product:     "@ + self.product@ + "\nFamily:      "@ + self.family@ + "\nVersion:     "@
            + self.version@ + "\nReleaseDate: "@ + self.release_date@ + "\nProducer:    "@
            + self.producer@ + "\nIsLicensed:  "@ + bool_text(self.is_licensed)
    }

    /// The text by which the metadata is shown to a user.
    pub fn to_string(&self) -> (s: String)
        ensures
            s@ == self.display_text(),
    {
        let mut s = String::from_str("Product:     ");
        s.append(self.product.as_str());
        s.append("\nFamily:      ");
        s.append(self.family.as_str());
        s.append("\nVersion:     ");
        s.append(self.version.as_str());
        s.append("\nReleaseDate: ");
        s.append(self.release_date.as_str());
        s.append("\nProducer:    ");
        s.append(self.producer.as_str());
        s.append("\nIsLicensed:  ");
        if self.is_licensed {
            s.append("true");
        } else {
            s.append("false");
        }
        s
    }
}

} // verus!
