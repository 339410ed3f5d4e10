//! Mojang's version manifest: finding where a Minecraft version is described.

use vstd::prelude::*;
use crate::text::same_text;

verus! {

/// One version listed in the manifest: its id (such as `1.20.1`) and the URL
/// of its description.
pub struct VersionEntry {
    pub id: String,
    pub url: String,
}

/// The versions Mojang's manifest lists, in its order.
pub struct VersionManifest {
    pub versions: Vec<VersionEntry>,
}

/// The URL of the first listed version with the given id, if any is listed.
pub open spec fn version_url(versions: Seq<VersionEntry>, version: Seq<char>) -> Option<Seq<char>>
    decreases versions.len(),
{
    if versions.len() == 0 {
        None
    } else if versions[0].id@ == version {
        Some(versions[0].url@)
    } else {
        version_url(versions.drop_first(), version)
    }
}

/// The URL of the description of `version`: that of the first entry of the
/// manifest with that id; none when the manifest does not list it.
pub fn find_version_url(manifest: &VersionManifest, version: &str) -> (url: Option<String>)
    ensures
        match url {
            Some(u) => version_url(manifest.versions@, version@) == Some(u@),
            None => version_url(manifest.versions@, version@) is None,
        },
{
    let mut i: usize = 0;
    assert(manifest.versions@.skip(0) =~= manifest.versions@);
    while i < manifest.versions.len()
        invariant
            i <= manifest.versions@.len(),
            version_url(manifest.versions@, version@) == version_url(
                manifest.versions@.skip(i as int),
                version@,
            ),
        decreases manifest.versions.len() - i,
    {
        let entry = &manifest.versions[i];
        assert(manifest.versions@.skip(i as int)[0] == manifest.versions@[i as int]);
        if same_text(entry.id.as_str(), version) {
            return Some(entry.url.clone());
        }
        assert(manifest.versions@.skip(i as int).drop_first() =~= manifest.versions@.skip(i + 1));
        i = i + 1;
    }
    None
}

/// A version's URL is the URL of the first entry whose id is exactly that
/// version: when one is found, its entry has that id and that URL and no
/// earlier entry has that id; when none is found, no entry has that id.
pub proof fn law_version_url_exact(versions: Seq<VersionEntry>, version: Seq<char>)
    ensures
        match version_url(versions, version) {
            Some(u) => exists|i: int|
                0 <= i < versions.len() && versions[i].id@ == version && versions[i].url@ == u && forall|
                    j: int,
                | 0 <= j < i ==> #[trigger] versions[j].id@ != version,
            None => forall|i: int| 0 <= i < versions.len() ==> #[trigger] versions[i].id@ != version,
        },
    decreases versions.len(),
{
    if versions.len() > 0 && versions[0].id@ != version {
        let rest = versions.drop_first();
        law_version_url_exact(rest, version);
        match version_url(versions, version) {
            Some(u) => {
                let i = choose|i: int|
                    0 <= i < rest.len() && rest[i].id@ == version && rest[i].url@ == u && forall|j: int|
                        0 <= j < i ==> #[trigger] rest[j].id@ != version;
                assert(versions[i + 1] == rest[i]);
                assert forall|j: int| 0 <= j < i + 1 implies #[trigger] versions[j].id@ != version by {
                    if j > 0 {
                        assert(versions[j] == rest[j - 1]);
                    }
                }
            },
            None => {
                assert forall|i: int| 0 <= i < versions.len() implies #[trigger] versions[i].id@ != version by {
                    if i > 0 {
                        assert(versions[i] == rest[i - 1]);
                    }
                }
            },
        }
    } else if versions.len() > 0 {
        assert(versions[0].id@ == version);
    }
}

} // verus!
