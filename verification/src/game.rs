//! The record that describes one game of the Devcade catalogue.

use vstd::prelude::*;
use vstd::string::*;

verus! {

/// Upload date of a record that never had one: the Unix epoch.
pub const EPOCH_UPLOAD_DATE: &'static str = "1970-01-01T00:00:00.000Z";

/// A game from the Devcade API.
#[derive(Debug, Clone, PartialEq, Eq)]
pub struct DevcadeGame {
    pub id: String,
    pub author: String,
    pub upload_date: String,
    pub name: String,
    pub hash: String,
    pub description: String,
    pub icon_link: String,
    pub banner_link: String,
}

/// The text of each field of a [`DevcadeGame`].
pub struct DevcadeGameView {
    pub id: Seq<char>,
    pub author: Seq<char>,
    pub upload_date: Seq<char>,
    pub name: Seq<char>,
    pub hash: Seq<char>,
    pub description: Seq<char>,
    pub icon_link: Seq<char>,
    pub banner_link: Seq<char>,
}

impl View for DevcadeGame {
    type V = DevcadeGameView;

    open spec fn view(&self) -> DevcadeGameView {
        DevcadeGameView {
            id: self.id@,
            author: self.author@,
            upload_date: self.upload_date@,
            name: self.name@,
            hash: self.hash@,
            description: self.description@,
            icon_link: self.icon_link@,
            banner_link: self.banner_link@,
        }
    }
}

impl DevcadeGameView {
    /// The record with every field empty but the upload date, which is the
    /// Unix epoch.
    pub open spec fn blank() -> DevcadeGameView {
        DevcadeGameView {
            id: Seq::empty(),
            author: Seq::empty(),
            upload_date: EPOCH_UPLOAD_DATE@,
            name: Seq::empty(),
            hash: Seq::empty(),
            description: Seq::empty(),
            icon_link: Seq::empty(),
            banner_link: Seq::empty(),
        }
    }
}

impl Default for DevcadeGame {
    fn default() -> (game: DevcadeGame)
        ensures
            game@ == DevcadeGameView::blank(),
    {
        DevcadeGame {
            id: String::new(),
            author: String::new(),
            upload_date: EPOCH_UPLOAD_DATE.to_owned(),
            name: String::new(),
            hash: String::new(),
            description: String::new(),
            icon_link: String::new(),
            banner_link: String::new(),
        }
    }
}

} // verus!
