use vstd::prelude::*;

verus! {

/// What the image host tells about one stored image.
#[derive(Debug)]
pub struct ImageInfo {
    pub id: String,
    pub title: String,
    pub url: String,
    pub mime: String,
    pub extension: String,
    pub name: String,
    pub filename: String,
    pub size: String,
    pub width: String,
    pub height: String,
}

/// The texts of an [`ImageInfo`], field by field.
pub struct ImageInfoView {
    pub id: Seq<char>,
    pub title: Seq<char>,
    pub url: Seq<char>,
    pub mime: Seq<char>,
    pub extension: Seq<char>,
    pub name: Seq<char>,
    pub filename: Seq<char>,
    pub size: Seq<char>,
    pub width: Seq<char>,
    pub height: Seq<char>,
}

impl View for ImageInfo {
    type V = ImageInfoView;

    open spec fn view(&self) -> ImageInfoView {
        ImageInfoView {
            id: self.id@,
            title: self.title@,
            url: self.url@,
            mime: self.mime@,
            extension: self.extension@,
            name: self.name@,
            filename: self.filename@,
            size: self.size@,
            width: self.width@,
            height: self.height@,
        }
    }
}

} // verus!
