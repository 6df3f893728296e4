//! Object store: from the backend's answers to the records and attributes
//! that are shown.

use vstd::prelude::*;
use vstd::string::*;
use crate::aws::attrs::{attribute, or_text, pair, text_or};
use crate::aws::s3::S3Service;
use crate::aws::time::{or_time, time_or, Timestamp};
use crate::aws::utils::{format_size, size_text};
use crate::text::{concat, concat3, count_string, decimal, relative_name, relative_to, same_text};

verus! {

/// One bucket as the backend names it: name and creation date, each of
/// which it may leave out.
pub type RawBucket = (Option<String>, Option<Timestamp>);

/// One object as the backend names it.
pub struct RawObject {
    pub key: Option<String>,
    /// In bytes.
    pub size: Option<i64>,
    pub last_modified: Option<Timestamp>,
}

/// The head of one object.
pub struct ObjectHead {
    /// In bytes.
    pub content_length: Option<i64>,
    pub last_modified: Option<Timestamp>,
    pub e_tag: Option<String>,
    pub storage_class: Option<String>,
    pub content_type: Option<String>,
}

/// The four switches that block public access; `None` where one is not set.
pub struct PublicAccessBlock {
    pub block_public_acls: Option<bool>,
    pub ignore_public_acls: Option<bool>,
    pub block_public_policy: Option<bool>,
    pub restrict_public_buckets: Option<bool>,
}

/// The access control list of a bucket.
pub struct BucketAcl {
    /// Number of grants.
    pub grants: usize,
    /// Display name of the owner, where the list names one.
    pub owner: Option<String>,
}

/// What six questions about one bucket were answered; `Err` holds the
/// message of a question that failed.
pub struct BucketAnswers {
    /// The location constraint; `None` for the default region.
    pub location: Result<Option<String>, String>,
    /// The versioning status; `None` where versioning was never set.
    pub versioning: Result<Option<String>, String>,
    /// The default encryption of the first rule: `None` without a rule,
    /// `Some(None)` for a rule without a default, else the algorithm.
    pub encryption: Result<Option<Option<String>>, String>,
    pub acl: Result<BucketAcl, String>,
    /// `None` where the bucket has no such configuration.
    pub public_access: Result<Option<PublicAccessBlock>, String>,
    /// The tags, as key and value.
    pub tagging: Result<Vec<(String, String)>, String>,
}

/// The records of the buckets that have a name, in order; a bucket without
/// a creation date has the date `Unknown`.
pub open spec fn bucket_records(raw: Seq<RawBucket>) -> Seq<(Seq<char>, Seq<char>)>
    decreases raw.len(),
{
    if raw.len() == 0 {
        Seq::empty()
    } else {
        let rest = bucket_records(raw.drop_last());
        match raw.last().0 {
            Some(name) => rest.push((name@, or_time(raw.last().1, "Unknown"@))),
            None => rest,
        }
    }
}

/// The folder records for the common prefixes that are named, in order:
/// the name as seen from `prefix`, the size `DIR`, and no date.
pub open spec fn folder_records(common: Seq<Option<String>>, prefix: Seq<char>) -> Seq<
    (Seq<char>, Seq<char>, Seq<char>),
>
    decreases common.len(),
{
    if common.len() == 0 {
        Seq::empty()
    } else {
        let rest = folder_records(common.drop_last(), prefix);
        match common.last() {
            Some(name) => rest.push((relative_to(name@, prefix), "DIR"@, ""@)),
            None => rest,
        }
    }
}

/// The record of one object: the key as seen from `prefix`, the size as
/// text (0 where unknown), and the date of the last change or `Unknown`.
pub open spec fn file_record(object: RawObject, prefix: Seq<char>) -> (
    Seq<char>,
    Seq<char>,
    Seq<char>,
) {
    (
        relative_to(object.key->0@, prefix),
        size_text(
            match object.size {
                Some(n) => n as int,
                None => 0,
            },
        ),
        or_time(object.last_modified, "Unknown"@),
    )
}

/// The file records for the objects that have a key, in order. The object
/// whose key is `prefix` itself stands for the folder and is left out.
pub open spec fn file_records(contents: Seq<RawObject>, prefix: Seq<char>) -> Seq<
    (Seq<char>, Seq<char>, Seq<char>),
>
    decreases contents.len(),
{
    if contents.len() == 0 {
        Seq::empty()
    } else {
        let rest = file_records(contents.drop_last(), prefix);
        let object = contents.last();
        if object.key is Some && object.key->0@ != prefix {
            rest.push(file_record(object, prefix))
        } else {
            rest
        }
    }
}

/// The attributes of an object: its key, then what its head holds of size,
/// date of the last change, entity tag, storage class and content type; or,
/// where the head could not be read, the failure.
pub open spec fn object_details(key: Seq<char>, head: Result<ObjectHead, String>) -> Seq<
    (Seq<char>, Seq<char>),
> {
    let name = seq![("Name"@, key)];
    match head {
        Ok(h) => name + (match h.content_length {
            Some(n) => seq![("Size"@, size_text(n as int))],
            None => Seq::empty(),
        }) + (match h.last_modified {
            Some(at) => seq![("Last Modified"@, at.text_of())],
            None => Seq::empty(),
        }) + optional("ETag"@, h.e_tag) + optional(
            "Storage Class"@,
            h.storage_class,
        ) + optional("Content Type"@, h.content_type),
        Err(e) => name.push(("Error"@, "Failed to get object details: "@ + e@)),
    }
}

/// The attribute `key` where `value` is known, and nothing otherwise.
pub open spec fn optional(key: Seq<char>, value: Option<String>) -> Seq<(Seq<char>, Seq<char>)> {
    match value {
        Some(v) => seq![(key, v@)],
        None => Seq::empty(),
    }
}

/// The region of a bucket: its location constraint, `us-east-1` where it
/// has none, or the failure.
pub open spec fn region_part(location: Result<Option<String>, String>) -> Seq<char> {
    match location {
        Ok(constraint) => or_text(constraint, "us-east-1"@),
        Err(e) => "Error: "@ + e@,
    }
}

/// The versioning of a bucket: its status, `Disabled` where it has none, or
/// the failure.
pub open spec fn versioning_part(versioning: Result<Option<String>, String>) -> Seq<char> {
    match versioning {
        Ok(status) => or_text(status, "Disabled"@),
        Err(e) => "Error: "@ + e@,
    }
}

/// The encryption of a bucket: the algorithm of its first rule, `Unknown`
/// for a rule without a default, `None` without a rule or an answer.
pub open spec fn encryption_part(encryption: Result<Option<Option<String>>, String>) -> Seq<char> {
    match encryption {
        Ok(Some(Some(algorithm))) => algorithm@,
        Ok(Some(None)) => "Unknown"@,
        _ => "None"@,
    }
}

/// The access control list of a bucket: the number of grants and, where
/// known, the owner; or the failure.
pub open spec fn acl_part(acl: Result<BucketAcl, String>) -> Seq<(Seq<char>, Seq<char>)> {
    match acl {
        Ok(list) => seq![("ACL Grants"@, decimal(list.grants as nat) + " grant(s)"@)] + optional(
            "Owner"@,
            list.owner,
        ),
        Err(e) => seq![("ACL"@, "Error: "@ + e@)],
    }
}

/// Whether all four switches are set.
pub open spec fn all_blocked(block: PublicAccessBlock) -> bool {
    block.block_public_acls == Some(true) && block.ignore_public_acls == Some(true)
        && block.block_public_policy == Some(true) && block.restrict_public_buckets == Some(true)
}

/// The public access of a bucket: blocked in all four ways or only partly;
/// nothing where the bucket has no such configuration; `Unknown` without an
/// answer.
pub open spec fn public_access_part(access: Result<Option<PublicAccessBlock>, String>) -> Seq<
    (Seq<char>, Seq<char>),
> {
    match access {
        Ok(Some(block)) => seq![
            (
                "Public Access"@,
                if all_blocked(block) {
                    "All Blocked"@
                } else {
                    "Partially Blocked"@
                },
            ),
        ],
        Ok(None) => Seq::empty(),
        Err(_) => seq![("Public Access"@, "Unknown"@)],
    }
}

/// The first `n` tags, numbered from 1.
pub open spec fn tag_lines(tags: Seq<(String, String)>, n: int) -> Seq<(Seq<char>, Seq<char>)>
    decreases n,
{
    if n <= 0 {
        Seq::empty()
    } else {
        tag_lines(tags, n - 1).push(
            ("  Tag "@ + decimal(n as nat), tags[n - 1].0@ + " = "@ + tags[n - 1].1@),
        )
    }
}

/// The tags of a bucket: their number and the first three of them; `None`
/// without an answer.
pub open spec fn tags_part(tagging: Result<Vec<(String, String)>, String>) -> Seq<
    (Seq<char>, Seq<char>),
> {
    match tagging {
        Ok(tags) => seq![("Tags"@, decimal(tags.len() as nat) + " tag(s)"@)] + tag_lines(
            tags@,
            if tags.len() < 3 {
                tags.len() as int
            } else {
                3
            },
        ),
        Err(_) => seq![("Tags"@, "None"@)],
    }
}

/// The attributes of a bucket, in order: name, region, versioning,
/// encryption, access control list, public access and tags.
pub open spec fn bucket_details(name: Seq<char>, answers: BucketAnswers) -> Seq<
    (Seq<char>, Seq<char>),
> {
    seq![
        ("Bucket Name"@, name),
        ("Region"@, region_part(answers.location)),
        ("Versioning"@, versioning_part(answers.versioning)),
        ("Encryption"@, encryption_part(answers.encryption)),
    ] + acl_part(answers.acl) + public_access_part(answers.public_access) + tags_part(
        answers.tagging,
    )
}

fn push_optional(details: &mut Vec<(String, String)>, key: &str, value: &Option<String>)
    ensures
        final(details).deep_view() == old(details).deep_view() + optional(key@, *value),
{
    match value {
        Some(v) => {
            details.push((String::from_str(key), v.clone()));
            assert(details.deep_view() =~= old(details).deep_view() + optional(key@, *value));
        },
        None => {
            assert(details.deep_view() =~= old(details).deep_view() + optional(key@, *value));
        },
    }
}

fn flag(value: &Option<bool>) -> (b: bool)
    ensures
        b == (*value == Some(true)),
{
    match value {
        Some(b) => *b,
        None => false,
    }
}

impl S3Service {
    /// The records of the buckets that the backend listed.
    pub fn list_buckets(raw: &[(Option<String>, Option<Timestamp>)]) -> (buckets: Vec<
        (String, String),
    >)
        ensures
            buckets.deep_view() == bucket_records(raw@),
    {
        let mut buckets: Vec<(String, String)> = Vec::new();
        let mut i: usize = 0;
        assert(buckets.deep_view() =~= bucket_records(raw@.take(0)));
        while i < raw.len()
            invariant
                i <= raw.len(),
                buckets.deep_view() == bucket_records(raw@.take(i as int)),
            decreases raw.len() - i,
        {
            proof {
                assert(raw@.take(i + 1).drop_last() =~= raw@.take(i as int));
            }
            match &raw[i].0 {
                Some(name) => {
                    buckets.push((name.clone(), time_or(&raw[i].1, "Unknown")));
                    assert(buckets.deep_view() =~= bucket_records(raw@.take(i + 1)));
                },
                None => {},
            }
            i += 1;
        }
        assert(raw@.take(i as int) =~= raw@);
        buckets
    }

    /// The records of what the backend listed under `prefix`: the folders
    /// first, then the files.
    pub fn list_objects(prefix: &str, common_prefixes: &[Option<String>], contents: &[RawObject]) -> (objects:
        Vec<(String, String, String)>)
        ensures
            objects.deep_view() == folder_records(common_prefixes@, prefix@) + file_records(
                contents@,
                prefix@,
            ),
    {
        let mut objects: Vec<(String, String, String)> = Vec::new();
        let mut i: usize = 0;
        assert(objects.deep_view() =~= folder_records(common_prefixes@.take(0), prefix@));
        while i < common_prefixes.len()
            invariant
                i <= common_prefixes.len(),
                objects.deep_view() == folder_records(common_prefixes@.take(i as int), prefix@),
            decreases common_prefixes.len() - i,
        {
            proof {
                assert(common_prefixes@.take(i + 1).drop_last() =~= common_prefixes@.take(
                    i as int,
                ));
            }
            match &common_prefixes[i] {
                Some(name) => {
                    objects.push(
                        (
                            relative_name(name.as_str(), prefix),
                            String::from_str("DIR"),
                            String::from_str(""),
                        ),
                    );
                    assert(objects.deep_view() =~= folder_records(
                        common_prefixes@.take(i + 1),
                        prefix@,
                    ));
                },
                None => {},
            }
            i += 1;
        }
        assert(common_prefixes@.take(i as int) =~= common_prefixes@);
        let ghost folders = objects.deep_view();
        let mut k: usize = 0;
        assert(objects.deep_view() =~= folders + file_records(contents@.take(0), prefix@));
        while k < contents.len()
            invariant
                k <= contents.len(),
                objects.deep_view() == folders + file_records(contents@.take(k as int), prefix@),
            decreases contents.len() - k,
        {
            proof {
                assert(contents@.take(k + 1).drop_last() =~= contents@.take(k as int));
            }
            match &contents[k].key {
                Some(key) => {
                    if !same_text(key.as_str(), prefix) {
                        let size = match contents[k].size {
                            Some(n) => n,
                            None => 0,
                        };
                        objects.push(
                            (
                                relative_name(key.as_str(), prefix),
                                format_size(size),
                                time_or(&contents[k].last_modified, "Unknown"),
                            ),
                        );
                        proof {
                            let upto = contents@.take(k + 1);
                            assert(upto.last() == contents@[k as int]);
                            assert(file_records(upto, prefix@) == file_records(
                                contents@.take(k as int),
                                prefix@,
                            ).push(file_record(contents@[k as int], prefix@)));
                            let before = folders + file_records(contents@.take(k as int), prefix@);
                            let target = folders + file_records(upto, prefix@);
                            assert(target.len() == before.len() + 1);
                            assert(target.last() == file_record(contents@[k as int], prefix@));
                            assert forall|j: int| 0 <= j < before.len() implies target[j]
                                == before[j] by {}
                            assert(objects.deep_view() =~= target);
                        }
                    }
                },
                None => {},
            }
            k += 1;
        }
        assert(contents@.take(k as int) =~= contents@);
        objects
    }

    /// The attributes of the object `key`, from its head.
    pub fn get_object_details(key: &str, head: &Result<ObjectHead, String>) -> (details: Vec<
        (String, String),
    >)
        ensures
            details.deep_view() == object_details(key@, *head),
    {
        let mut details = vec![pair("Name", key)];
        assert(details.deep_view() =~= seq![("Name"@, key@)]);
        match head {
            Ok(h) => {
                match h.content_length {
                    Some(n) => {
                        details.push((String::from_str("Size"), format_size(n)));
                        assert(details.deep_view() =~= seq![("Name"@, key@)] + seq![
                            ("Size"@, size_text(n as int)),
                        ]);
                    },
                    None => {
                        assert(details.deep_view() =~= seq![("Name"@, key@)] + Seq::empty());
                    },
                }
                let ghost sized = details.deep_view();
                match &h.last_modified {
                    Some(at) => {
                        details.push((String::from_str("Last Modified"), at.text()));
                        assert(details.deep_view() =~= sized + seq![
                            ("Last Modified"@, at.text_of()),
                        ]);
                    },
                    None => {
                        assert(details.deep_view() =~= sized + Seq::empty());
                    },
                }
                push_optional(&mut details, "ETag", &h.e_tag);
                push_optional(&mut details, "Storage Class", &h.storage_class);
                push_optional(&mut details, "Content Type", &h.content_type);
            },
            Err(e) => {
                details.push(
                    (
                        String::from_str("Error"),
                        concat("Failed to get object details: ", e.as_str()),
                    ),
                );
                assert(details.deep_view() =~= object_details(key@, *head));
            },
        }
        details
    }

    /// The attributes of the bucket `bucket_name`, from the answers to the
    /// six questions about it.
    pub fn get_bucket_details(bucket_name: &str, answers: &BucketAnswers) -> (details: Vec<
        (String, String),
    >)
        ensures
            details.deep_view() == bucket_details(bucket_name@, *answers),
    {
        let region = match &answers.location {
            Ok(constraint) => text_or(constraint, "us-east-1"),
            Err(e) => concat("Error: ", e.as_str()),
        };
        let versioning = match &answers.versioning {
            Ok(status) => text_or(status, "Disabled"),
            Err(e) => concat("Error: ", e.as_str()),
        };
        let encryption = match &answers.encryption {
            Ok(Some(Some(algorithm))) => algorithm.clone(),
            Ok(Some(None)) => String::from_str("Unknown"),
            _ => String::from_str("None"),
        };
        let mut details = vec![
            pair("Bucket Name", bucket_name),
            (String::from_str("Region"), region),
            (String::from_str("Versioning"), versioning),
            (String::from_str("Encryption"), encryption),
        ];
        let ghost head = details.deep_view();
        assert(head =~= seq![
            ("Bucket Name"@, bucket_name@),
            ("Region"@, region_part(answers.location)),
            ("Versioning"@, versioning_part(answers.versioning)),
            ("Encryption"@, encryption_part(answers.encryption)),
        ]);
        match &answers.acl {
            Ok(list) => {
                details.push(
                    (
                        String::from_str("ACL Grants"),
                        concat(count_string(list.grants).as_str(), " grant(s)"),
                    ),
                );
                push_optional(&mut details, "Owner", &list.owner);
            },
            Err(e) => {
                details.push((String::from_str("ACL"), concat("Error: ", e.as_str())));
            },
        }
        assert(details.deep_view() =~= head + acl_part(answers.acl));
        let ghost with_acl = details.deep_view();
        match &answers.public_access {
            Ok(Some(block)) => {
                let all = flag(&block.block_public_acls) && flag(&block.ignore_public_acls)
                    && flag(&block.block_public_policy) && flag(&block.restrict_public_buckets);
                details.push(
                    pair(
                        "Public Access",
                        if all {
                            "All Blocked"
                        } else {
                            "Partially Blocked"
                        },
                    ),
                );
            },
            Ok(None) => {},
            Err(_) => {
                details.push(pair("Public Access", "Unknown"));
            },
        }
        assert(details.deep_view() =~= with_acl + public_access_part(answers.public_access));
        let ghost with_access = details.deep_view();
        match &answers.tagging {
            Ok(tags) => {
                details.push(
                    (
                        String::from_str("Tags"),
                        concat(count_string(tags.len()).as_str(), " tag(s)"),
                    ),
                );
                let shown: usize = if tags.len() < 3 { tags.len() } else { 3 };
                let ghost counted = details.deep_view();
                let mut i: usize = 0;
                assert(details.deep_view() =~= counted + tag_lines(tags@, 0));
                while i < shown
                    invariant
                        i <= shown <= tags.len(),
                        shown <= 3,
                        details.deep_view() == counted + tag_lines(tags@, i as int),
                    decreases shown - i,
                {
                    details.push(
                        (
                            concat("  Tag ", count_string(i + 1).as_str()),
                            concat3(tags[i].0.as_str(), " = ", tags[i].1.as_str()),
                        ),
                    );
                    i += 1;
                    proof {
                        let line = ("  Tag "@ + decimal(i as nat), tags@[i - 1].0@ + " = "@ + tags@[i
                            - 1].1@);
                        assert(tag_lines(tags@, i as int) == tag_lines(tags@, i - 1).push(line));
                        let before = counted + tag_lines(tags@, i - 1);
                        let target = counted + tag_lines(tags@, i as int);
                        assert(target.len() == before.len() + 1);
                        assert(target.last() == line);
                        assert forall|j: int| 0 <= j < before.len() implies target[j]
                            == before[j] by {}
                        assert(details.deep_view() =~= target);
                    }
                }
                assert(details.deep_view() =~= with_access + tags_part(answers.tagging));
            },
            Err(_) => {
                details.push(pair("Tags", "None"));
                assert(details.deep_view() =~= with_access + tags_part(answers.tagging));
            },
        }
        details
    }
}

} // verus!
