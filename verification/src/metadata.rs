use crate::error::MarketError;
use crate::table::TextMap;
use vstd::prelude::*;

verus! {

/// The version of the metadata standard that a collection names.
pub const NFT_METADATA_SPEC: &'static str = "nft-1.0.0";

/// A reference hash is this many bytes long.
pub const HASH_LEN: usize = 32;

/// What a collection says of itself.
#[derive(Debug, PartialEq, Eq)]
pub struct NFTContractMetadata {
    pub spec: String,
    pub name: String,
    pub symbol: String,
    pub icon: Option<String>,
    pub base_uri: Option<String>,
    pub reference: Option<String>,
    pub reference_hash: Option<Vec<u8>>,
}

impl NFTContractMetadata {
    /// Whether the metadata is accepted, and why not: it names the metadata standard,
    /// has a reference exactly where it has a reference hash, and a hash of 32 bytes.
    pub open spec fn validity(self) -> Result<(), MarketError> {
        if self.spec@ != NFT_METADATA_SPEC@ {
            Err(MarketError::MetadataSpecMismatch)
        } else if self.reference.is_some() != self.reference_hash.is_some() {
            Err(MarketError::MetadataReferenceMismatch)
        } else if self.reference_hash.is_some() && self.reference_hash.unwrap()@.len() != HASH_LEN {
            Err(MarketError::MetadataHashLength)
        } else {
            Ok(())
        }
    }

    /// Checks the metadata of a collection.
    pub fn check_valid(&self) -> (checked: Result<(), MarketError>)
        ensures
            checked == self.validity(),
    {
        let expected = String::from_str(NFT_METADATA_SPEC);
        if self.spec != expected {
            return Err(MarketError::MetadataSpecMismatch);
        }
        if self.reference.is_some() != self.reference_hash.is_some() {
            return Err(MarketError::MetadataReferenceMismatch);
        }
        match &self.reference_hash {
            Some(hash) => {
                if hash.len() != HASH_LEN {
                    return Err(MarketError::MetadataHashLength);
                }
            },
            None => {},
        }
        Ok(())
    }
}

/// What is said of a series, and of each item minted from it. The hashes are kept as
/// their Base64 text.
#[derive(Debug, PartialEq, Eq)]
pub struct TokenMetadata {
    pub title: Option<String>,
    pub description: Option<String>,
    pub media: Option<String>,
    pub media_hash: Option<String>,
    pub copies: Option<u64>,
    pub issued_at: Option<String>,
    pub expires_at: Option<String>,
    pub starts_at: Option<String>,
    pub updated_at: Option<String>,
    pub extra: Option<String>,
    pub reference: Option<String>,
    pub reference_hash: Option<String>,
}

/// Copies a text that may be absent.
pub fn clone_text(text: &Option<String>) -> (copy: Option<String>)
    ensures
        copy == *text,
{
    match text {
        Some(t) => Some(t.clone()),
        None => None,
    }
}

impl Clone for TokenMetadata {
    fn clone(&self) -> (copy: TokenMetadata)
        ensures
            copy == *self,
    {
        TokenMetadata {
            title: clone_text(&self.title),
            description: clone_text(&self.description),
            media: clone_text(&self.media),
            media_hash: clone_text(&self.media_hash),
            copies: self.copies,
            issued_at: clone_text(&self.issued_at),
            expires_at: clone_text(&self.expires_at),
            starts_at: clone_text(&self.starts_at),
            updated_at: clone_text(&self.updated_at),
            extra: clone_text(&self.extra),
            reference: clone_text(&self.reference),
            reference_hash: clone_text(&self.reference_hash),
        }
    }
}

/// One item as its owner sees it.
#[derive(Clone, Debug, PartialEq, Eq)]
pub struct Token {
    pub token_id: String,
    pub owner_id: String,
    pub metadata: Option<TokenMetadata>,
    pub approved_account_ids: Option<TextMap<u64>>,
}

/// The title of an item: the title of its series, the title delimiter and the item's
/// index.
pub open spec fn item_title(series_title: Seq<char>, index: Seq<char>) -> Seq<char> {
    series_title + seq![' ', '#'] + index
}

/// Where the media of the series `series_id` lies under the media root of its template.
pub open spec fn series_media(root: Seq<char>, series_id: Seq<char>) -> Seq<char> {
    root + seq!['/'] + series_id + seq!['/', 'm', 'e', 'd', 'i', 'a']
}

/// Composes the title of an item.
pub fn compose_title(series_title: &String, index: &String) -> (title: String)
    ensures
        title@ == item_title(series_title@, index@),
{
    proof {
        reveal_strlit(" #");
    }
    let title = series_title.clone().concat(crate::text::TITLE_DELIMETER).concat(index.as_str());
    assert(title@ =~= item_title(series_title@, index@));
    title
}

/// Composes the media path of a series.
pub fn compose_media(root: &String, series_id: &String) -> (media: String)
    ensures
        media@ == series_media(root@, series_id@),
{
    proof {
        reveal_strlit("/");
        reveal_strlit("/media");
    }
    let media = root.clone().concat("/").concat(series_id.as_str()).concat("/media");
    assert(media@ =~= series_media(root@, series_id@));
    media
}

/// What is shown for an item: the title of the series with the item's index behind it;
/// reference, media, copies and extra data as the series has them now; everything else as
/// it was stored with the item.
pub open spec fn shown_metadata(series: TokenMetadata, stored: TokenMetadata, title: String) -> TokenMetadata {
    TokenMetadata {
        title: Some(title),
        description: stored.description,
        media: series.media,
        media_hash: stored.media_hash,
        copies: series.copies,
        issued_at: stored.issued_at,
        expires_at: stored.expires_at,
        starts_at: stored.starts_at,
        updated_at: stored.updated_at,
        extra: series.extra,
        reference: series.reference,
        reference_hash: stored.reference_hash,
    }
}

/// What is stored with an item minted at `issued_at`: the template of its series, with
/// the time of the mint.
pub open spec fn minted_metadata(series: TokenMetadata, issued_at: String) -> TokenMetadata {
    TokenMetadata {
        title: series.title,
        description: series.description,
        media: series.media,
        media_hash: series.media_hash,
        copies: series.copies,
        issued_at: Some(issued_at),
        expires_at: series.expires_at,
        starts_at: series.starts_at,
        updated_at: series.updated_at,
        extra: series.extra,
        reference: series.reference,
        reference_hash: series.reference_hash,
    }
}

} // verus!
