//! Command dispatch: which container operations resolve their locator first and which must
//! confirm forced storage before they run.
use vstd::prelude::*;

use crate::containers::StorageClass;
use crate::destination::MemberFilter;

verus! {

/// The operations of the `container` command family, with the key that a forced-storage
/// operation affects.
pub enum ContainerOperation {
    Info,
    List,
    Init,
    Add,
    Update,
    Read,
    Path,
    Check,
    Remove,
    Rename,
    Copy,
    LocalList,
    LocalAdd { entry: String },
    LocalUpdate { entry: String },
    LocalRead,
    LocalPath,
    LocalRemove,
    LocalRename { to: String },
    LocalCopy { to: String },
    Link { linker_key: String },
    LinkList,
    LinkCopy { to: String },
    LinkRename { to: String },
    LinkRemove,
    LinkInfo,
    Tests,
}

/// A key forced into one storage class by an explicit local or link operation.
pub struct ForcedKey {
    pub key: String,
    pub class: StorageClass,
}

/// How a container operation runs.
pub struct ContainerPlan {
    /// Whether the container locator is resolved before the operation; initialization and
    /// fixture generation work without an existing container.
    pub resolves_locator: bool,
    /// The forced-storage confirmation that precedes the operation, if any.
    pub forced: Option<ForcedKey>,
}

/// The forced key of an operation: local writes, renames and copies force their destination
/// key to local storage; link creation, copy and rename force theirs to link storage.
pub open spec fn forced_spec(op: ContainerOperation) -> Option<(Seq<char>, StorageClass)> {
    match op {
        ContainerOperation::LocalAdd { entry } => Some((entry@, StorageClass::Local)),
        ContainerOperation::LocalUpdate { entry } => Some((entry@, StorageClass::Local)),
        ContainerOperation::LocalRename { to } => Some((to@, StorageClass::Local)),
        ContainerOperation::LocalCopy { to } => Some((to@, StorageClass::Local)),
        ContainerOperation::Link { linker_key } => Some((linker_key@, StorageClass::Link)),
        ContainerOperation::LinkCopy { to } => Some((to@, StorageClass::Link)),
        ContainerOperation::LinkRename { to } => Some((to@, StorageClass::Link)),
        _ => None,
    }
}

fn forced(key: &String, class: StorageClass) -> (res: Option<ForcedKey>)
    ensures
        res matches Some(f) && f.key@ == key@ && f.class == class,
{
    Some(ForcedKey { key: key.clone(), class })
}

/// Plans one container operation: whether its locator is resolved first, and which key, if
/// any, must pass the forced-storage confirmation.
pub fn run(op: &ContainerOperation) -> (res: ContainerPlan)
    ensures
        res.resolves_locator == !(op is Init || op is Tests),
        match (res.forced, forced_spec(*op)) {
            (Some(f), Some((key, class))) => f.key@ == key && f.class == class,
            (None, None) => true,
            _ => false,
        },
{
    let resolves_locator = match op {
        ContainerOperation::Init => false,
        ContainerOperation::Tests => false,
        _ => true,
    };
    let forced = match op {
        ContainerOperation::LocalAdd { entry } => forced(entry, StorageClass::Local),
        ContainerOperation::LocalUpdate { entry } => forced(entry, StorageClass::Local),
        ContainerOperation::LocalRename { to } => forced(to, StorageClass::Local),
        ContainerOperation::LocalCopy { to } => forced(to, StorageClass::Local),
        ContainerOperation::Link { linker_key } => forced(linker_key, StorageClass::Link),
        ContainerOperation::LinkCopy { to } => forced(to, StorageClass::Link),
        ContainerOperation::LinkRename { to } => forced(to, StorageClass::Link),
        _ => None,
    };
    ContainerPlan { resolves_locator, forced }
}

/// The operations of the `destination` command family.
#[derive(Clone, Copy, PartialEq, Eq, Structural, Debug)]
pub enum DestinationOperation {
    Init,
    Info,
    List,
    Containers,
    Subcontainers,
}

/// The member subset that a destination operation lists; `None` for operations that list
/// nothing.
pub fn destination_listing(op: DestinationOperation) -> (res: Option<MemberFilter>)
    ensures
        res == match op {
            DestinationOperation::List => Some(MemberFilter::All),
            DestinationOperation::Containers => Some(MemberFilter::Containers),
            DestinationOperation::Subcontainers => Some(MemberFilter::Subcontainers),
            _ => None::<MemberFilter>,
        },
{
    match op {
        DestinationOperation::List => Some(MemberFilter::All),
        DestinationOperation::Containers => Some(MemberFilter::Containers),
        DestinationOperation::Subcontainers => Some(MemberFilter::Subcontainers),
        _ => None,
    }
}

} // verus!

verus! {

/// The storage class that an operation forces, if any.
pub open spec fn forced_class(op: ContainerOperation) -> Option<StorageClass> {
    match forced_spec(op) {
        Some((_, c)) => Some(c),
        None => None,
    }
}

/// The key that an operation forces, if any.
pub open spec fn forced_key(op: ContainerOperation) -> Option<Seq<char>> {
    match forced_spec(op) {
        Some((k, _)) => Some(k),
        None => None,
    }
}

/// Every link-family operation (link, link-copy, link-rename) forces its destination key into
/// Link storage, every local-family write, rename or copy forces its destination key into
/// Local storage, and no other operation forces anything.
pub proof fn law_forced_classes_follow_the_family(op: ContainerOperation)
    ensures
        (op is Link || op is LinkCopy || op is LinkRename) ==> forced_class(op) == Some(
            StorageClass::Link,
        ),
        (op is LocalAdd || op is LocalUpdate || op is LocalRename || op is LocalCopy)
            ==> forced_class(op) == Some(StorageClass::Local),
        !(op is Link || op is LinkCopy || op is LinkRename || op is LocalAdd || op is LocalUpdate
            || op is LocalRename || op is LocalCopy) ==> forced_class(op) is None && forced_key(
            op,
        ) is None,
        match op {
            ContainerOperation::Link { linker_key } => forced_key(op) == Some(linker_key@),
            ContainerOperation::LinkCopy { to } => forced_key(op) == Some(to@),
            ContainerOperation::LinkRename { to } => forced_key(op) == Some(to@),
            ContainerOperation::LocalAdd { entry } => forced_key(op) == Some(entry@),
            ContainerOperation::LocalUpdate { entry } => forced_key(op) == Some(entry@),
            ContainerOperation::LocalRename { to } => forced_key(op) == Some(to@),
            ContainerOperation::LocalCopy { to } => forced_key(op) == Some(to@),
            _ => true,
        },
{
}

} // verus!
