//! Output-format and media-type selectors and their URL slugs.

use vstd::prelude::*;

verus! {

/// The response format a request asks the server for (`fo=json` or `fo=yaml`).
#[derive(Debug, Clone, Copy, PartialEq, Eq)]
pub enum Format {
    /// JSON format (`fo=json`).
    Json,
    /// YAML format (`fo=yaml`).
    Yaml,
}

/// The slug of a [`Format`], as it appears after `fo=` in a query string.
pub open spec fn spec_format_slug(f: Format) -> Seq<char> {
    match f {
        Format::Json => "json"@,
        Format::Yaml => "yaml"@,
    }
}

impl Format {
    /// Returns the slug used in the request URL for this format.
    pub fn slug(&self) -> (r: &'static str)
        ensures
            r@ == spec_format_slug(*self),
    {
        match self {
            Format::Json => "json",
            Format::Yaml => "yaml",
        }
    }
}

impl Default for Format {
    /// The format a request falls back to when none is chosen.
    fn default() -> (r: Self)
        ensures
            r == Format::Json,
    {
        Format::Json
    }
}

/// A media category with a fixed path segment of its own (`/maps/`, `/audio/`, ...).
#[derive(Debug, Clone, Copy, PartialEq, Eq)]
pub enum MediaType {
    /// Audio recordings (`/audio/`).
    Audio,
    /// Books or printed material (`/books/`).
    Books,
    /// Films and videos (`/film-and-videos/`).
    FilmAndVideos,
    /// Legislation (`/legislation/`).
    Legislation,
    /// Manuscripts or mixed material (`/manuscripts/`).
    Manuscripts,
    /// Maps (`/maps/`).
    Maps,
    /// Newspapers (`/newspapers/`).
    Newspapers,
    /// Photos, prints, or drawings (`/photos/`).
    Photos,
    /// Notated music such as sheet music (`/notated-music/`).
    NotatedMusic,
    /// Web archives (`/web-archives/`).
    WebArchives,
}

/// The slug of a [`MediaType`], used as the path segment of the format route.
pub open spec fn spec_media_slug(m: MediaType) -> Seq<char> {
    match m {
        MediaType::Audio => "audio"@,
        MediaType::Books => "books"@,
        MediaType::FilmAndVideos => "film-and-videos"@,
        MediaType::Legislation => "legislation"@,
        MediaType::Manuscripts => "manuscripts"@,
        MediaType::Maps => "maps"@,
        MediaType::Newspapers => "newspapers"@,
        MediaType::Photos => "photos"@,
        MediaType::NotatedMusic => "notated-music"@,
        MediaType::WebArchives => "web-archives"@,
    }
}

impl MediaType {
    /// Returns the path segment used in the request URL for this media type.
    pub fn slug(&self) -> (r: &'static str)
        ensures
            r@ == spec_media_slug(*self),
    {
        match self {
            MediaType::Audio => "audio",
            MediaType::Books => "books",
            MediaType::FilmAndVideos => "film-and-videos",
            MediaType::Legislation => "legislation",
            MediaType::Manuscripts => "manuscripts",
            MediaType::Maps => "maps",
            MediaType::Newspapers => "newspapers",
            MediaType::Photos => "photos",
            MediaType::NotatedMusic => "notated-music",
            MediaType::WebArchives => "web-archives",
        }
    }
}

} // verus!
