//! User metadata configuration.
//!
//! The profile fields a client publishes: a name, a display name, a
//! description, and optional picture, banner, verification and payment
//! entries.  The builder assembles them field by field; turning the
//! finished configuration into a wire-format profile event is the
//! embedding application's business.

use vstd::prelude::*;

verus! {

/// Configuration options for user metadata.
#[derive(Debug, Clone)]
pub struct MetadataConfig {
    /// The name of the user.
    pub name: String,
    /// The display name of the user.
    pub display_name: String,
    /// A brief description about the user.
    pub about: String,
    /// The URL of the user's profile picture.
    pub picture: Option<String>,
    /// The URL of the user's banner.
    pub banner: Option<String>,
    /// The NIP05 identifier.
    pub nip05: Option<String>,
    /// The LUD16 payment pointer.
    pub lud16: Option<String>,
}

impl MetadataConfig {
    /// Creates a new MetadataConfig builder.
    pub fn builder() -> (b: MetadataConfigBuilder)
        ensures
            b.config.name@ == Seq::<char>::empty(),
            b.config.display_name@ == Seq::<char>::empty(),
            b.config.about@ == Seq::<char>::empty(),
            b.config.picture is None,
            b.config.banner is None,
            b.config.nip05 is None,
            b.config.lud16 is None,
    {
        MetadataConfigBuilder::new()
    }
}

/// Builder for MetadataConfig.
#[derive(Debug, Clone)]
pub struct MetadataConfigBuilder {
    /// The configuration assembled so far.
    pub config: MetadataConfig,
}

impl MetadataConfigBuilder {
    /// Creates a new MetadataConfigBuilder with every field empty.
    pub fn new() -> (b: Self)
        ensures
            b.config.name@ == Seq::<char>::empty(),
            b.config.display_name@ == Seq::<char>::empty(),
            b.config.about@ == Seq::<char>::empty(),
            b.config.picture is None,
            b.config.banner is None,
            b.config.nip05 is None,
            b.config.lud16 is None,
    {
        MetadataConfigBuilder {
            config: MetadataConfig {
                name: String::new(),
                display_name: String::new(),
                about: String::new(),
                picture: None,
                banner: None,
                nip05: None,
                lud16: None,
            },
        }
    }

    /// Sets the name field.
    pub fn name(self, name: String) -> (b: Self)
        ensures
            b.config == (MetadataConfig { name, ..self.config }),
    {
        let mut b = self;
        b.config.name = name;
        b
    }

    /// Sets the display name field.
    pub fn display_name(self, display_name: String) -> (b: Self)
        ensures
            b.config == (MetadataConfig { display_name, ..self.config }),
    {
        let mut b = self;
        b.config.display_name = display_name;
        b
    }

    /// Sets the about field.
    pub fn about(self, about: String) -> (b: Self)
        ensures
            b.config == (MetadataConfig { about, ..self.config }),
    {
        let mut b = self;
        b.config.about = about;
        b
    }

    /// Sets the picture URL field.
    pub fn picture(self, picture: String) -> (b: Self)
        ensures
            b.config == (MetadataConfig { picture: Some(picture), ..self.config }),
    {
        let mut b = self;
        b.config.picture = Some(picture);
        b
    }

    /// Sets the banner URL field.
    pub fn banner(self, banner: String) -> (b: Self)
        ensures
            b.config == (MetadataConfig { banner: Some(banner), ..self.config }),
    {
        let mut b = self;
        b.config.banner = Some(banner);
        b
    }

    /// Sets the NIP05 identifier field.
    pub fn nip05(self, nip05: String) -> (b: Self)
        ensures
            b.config == (MetadataConfig { nip05: Some(nip05), ..self.config }),
    {
        let mut b = self;
        b.config.nip05 = Some(nip05);
        b
    }

    /// Sets the LUD16 payment pointer field.
    pub fn lud16(self, lud16: String) -> (b: Self)
        ensures
            b.config == (MetadataConfig { lud16: Some(lud16), ..self.config }),
    {
        let mut b = self;
        b.config.lud16 = Some(lud16);
        b
    }

    /// Hands out the assembled configuration.
    pub fn build(self) -> (c: MetadataConfig)
        ensures
            c == self.config,
    {
        self.config
    }
}

/// Creates metadata configuration for a user in one call.
pub fn create_metadata(
    name: String,
    display_name: String,
    about: String,
    picture: Option<String>,
    banner: Option<String>,
    nip05: Option<String>,
    lud16: Option<String>,
) -> (c: MetadataConfig)
    ensures
        c == (MetadataConfig { name, display_name, about, picture, banner, nip05, lud16 }),
{
    MetadataConfig { name, display_name, about, picture, banner, nip05, lud16 }
}

} // verus!
