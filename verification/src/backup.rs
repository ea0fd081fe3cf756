//! Backup-snapshot diffing: given the two most recent backup archives, pull
//! the tracked file's member out of each and compare bytes, to detect an
//! edit that the window-focus poll alone would miss.

use vstd::prelude::*;

verus! {

/// Which of the two archives could not yield the tracked member.
#[derive(Clone, Copy, Debug, PartialEq, Eq, Structural)]
pub enum BackupError {
    /// The newest archive is unreadable or lacks the member.
    Newest,
    /// The second-newest archive is unreadable or lacks the member.
    SecondNewest,
}

#[verifier::external_type_specification]
#[verifier::external_body]
pub struct ExZipError(zip::result::ZipError);

/// The bytes of the member named `name` inside the archive `archive`, when
/// the archive is well formed, holds such a member, and the member can be
/// extracted; extraction is a function of the archive bytes and the name
/// alone.
pub uninterp spec fn zip_member(archive: Seq<u8>, name: Seq<char>) -> Option<Seq<u8>>;

/// Relies on zip::ZipArchive::new and ZipArchive::by_name, reading the
/// archive from an in-memory cursor: the extracted bytes depend on the
/// archive bytes and the member name alone, and extraction fails exactly
/// when no well-defined member content exists.
#[verifier::external_body]
fn read_zip_member(archive: &Vec<u8>, name: &str) -> (r: Result<Vec<u8>, zip::result::ZipError>)
    ensures
        (match r {
            Ok(v) => zip_member(archive@, name@) == Some(v@),
            Err(_) => zip_member(archive@, name@) is None,
        }),
{
    let cursor = std::io::Cursor::new(archive.as_slice());
    let mut opened = zip::ZipArchive::new(cursor)?;
    let mut member = opened.by_name(name)?;
    let mut buf: Vec<u8> = Vec::new();
    std::io::Read::read_to_end(&mut member, &mut buf).map_err(zip::result::ZipError::from)?;
    Ok(buf)
}

/// Byte-for-byte equality of two buffers.
pub fn bytes_eq(a: &Vec<u8>, b: &Vec<u8>) -> (r: bool)
    ensures
        r == (a@ == b@),
{
    let na = a.len();
    let nb = b.len();
    if na != nb {
        assert(a@ != b@);
        return false;
    }
    let mut i: usize = 0;
    while i < na
        invariant
            na == a@.len(),
            na == b@.len(),
            i <= na,
            forall|j: int| 0 <= j < i ==> a@[j] == b@[j],
        decreases na - i,
    {
        if a[i] != b[i] {
            assert(a@ != b@);
            return false;
        }
        i = i + 1;
    }
    proof {
        assert(a@ =~= b@);
    }
    true
}

/// Whether the member named `name` differs between the newest and the
/// second-newest backup archive. A member that cannot be extracted from
/// either archive is an error, never "no change."
pub fn member_changed(newest: &Vec<u8>, second_newest: &Vec<u8>, name: &str) -> (r: Result<
    bool,
    BackupError,
>)
    ensures
        (match r {
            Ok(changed) => {
                &&& zip_member(newest@, name@) is Some
                &&& zip_member(second_newest@, name@) is Some
                &&& changed == (zip_member(newest@, name@) != zip_member(second_newest@, name@))
            },
            Err(BackupError::Newest) => zip_member(newest@, name@) is None,
            Err(BackupError::SecondNewest) => {
                &&& zip_member(newest@, name@) is Some
                &&& zip_member(second_newest@, name@) is None
            },
        }),
{
    let v1 = match read_zip_member(newest, name) {
        Ok(v) => v,
        Err(_) => {
            return Err(BackupError::Newest);
        },
    };
    let v2 = match read_zip_member(second_newest, name) {
        Ok(v) => v,
        Err(_) => {
            return Err(BackupError::SecondNewest);
        },
    };
    Ok(!bytes_eq(&v1, &v2))
}

/// Decide whether the tracked file changed between the two newest backup
/// snapshots. `archives` holds the backup archives' bytes in ascending
/// order of creation time; with fewer than two snapshots there is nothing
/// to compare and nothing changed.
pub fn diff_latest(archives: &Vec<Vec<u8>>, name: &str) -> (r: Result<bool, BackupError>)
    ensures
        archives@.len() < 2 ==> r == Result::<bool, BackupError>::Ok(false),
        archives@.len() >= 2 ==> (match r {
            Ok(changed) => {
                &&& zip_member(archives@[archives@.len() - 1]@, name@) is Some
                &&& zip_member(archives@[archives@.len() - 2]@, name@) is Some
                &&& changed == (zip_member(archives@[archives@.len() - 1]@, name@) != zip_member(
                    archives@[archives@.len() - 2]@,
                    name@,
                ))
            },
            Err(BackupError::Newest) => zip_member(archives@[archives@.len() - 1]@, name@) is None,
            Err(BackupError::SecondNewest) => {
                &&& zip_member(archives@[archives@.len() - 1]@, name@) is Some
                &&& zip_member(archives@[archives@.len() - 2]@, name@) is None
            },
        }),
{
    let n = archives.len();
    if n < 2 {
        return Ok(false);
    }
    member_changed(&archives[n - 1], &archives[n - 2], name)
}

} // verus!
