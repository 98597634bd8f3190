//! The classifier: what arrives from the holders is sorted into updates for
//! their sessions, or dropped.

use crate::cursor::{size_verdict, Bitmap, CursorError, CursorImage};
use crate::session::{Update, UserData};
use crate::shared::{Message, UserPacket};
use vstd::prelude::*;

verus! {

/// A classified datagram on its way to the sessions.
pub struct ThreadPacket {
    pub owner: u64,
    pub data: UserData,
}

/// What the classifier makes of one datagram, given what the structured
/// decoder and the picture decoder make of its bytes: a structured message is
/// forwarded as it is, anything else only as a picture of the right size.
pub open spec fn classified(structured: Option<Message>, picture: Option<Bitmap>) -> Result<
    Update,
    CursorError,
> {
    match structured {
        Some(Message::State(state)) => Ok(Update::State(state)),
        Some(Message::AnimationSet(set)) => Ok(Update::AnimationStates(set)),
        None => match picture {
            None => Err(CursorError::Unreadable),
            Some(image) => match size_verdict(image.width, image.height()) {
                Ok(_) => Ok(Update::Image(image)),
                Err(error) => Err(error),
            },
        },
    }
}

/// Model of a structured message that may be absent.
pub open spec fn message_model(structured: Option<UserPacket>) -> Option<Message> {
    match structured {
        Some(packet) => Some(packet@),
        None => None,
    }
}

/// Model of a picture that may be absent.
pub open spec fn picture_model(picture: Option<CursorImage>) -> Option<Bitmap> {
    match picture {
        Some(image) => Some(image@),
        None => None,
    }
}

/// Whether `outcome` is what the classifier owes for a datagram from `owner`
/// on which the verdict is `verdict`.
pub open spec fn forwards(
    outcome: Result<ThreadPacket, CursorError>,
    owner: u64,
    verdict: Result<Update, CursorError>,
) -> bool {
    match outcome {
        Ok(packet) => packet.owner == owner && verdict == Ok::<Update, CursorError>(packet.data@),
        Err(error) => verdict == Err::<Update, CursorError>(error),
    }
}

/// Classifies a datagram that is no structured message, given what the
/// picture decoder made of it: a picture of the right size is forwarded, any
/// other is dropped with the reason.
pub fn classify_image(owner: u64, picture: Option<CursorImage>) -> (outcome: Result<
    ThreadPacket,
    CursorError,
>)
    ensures
        forwards(outcome, owner, classified(None, picture_model(picture))),
{
    match picture {
        None => Err(CursorError::Unreadable),
        Some(image) => match image.validate() {
            Ok(_) => Ok(ThreadPacket { owner, data: UserData::Image(image) }),
            Err(error) => Err(error),
        },
    }
}

/// Classifies one datagram from `owner`. `structured` is what the decoder of
/// structured messages made of the bytes; where it made nothing of them, they
/// are tried as a picture, and the outcome is what `classify_image` makes of
/// whatever the picture decoder returns.
pub fn classify(owner: u64, structured: Option<UserPacket>, datagram: &[u8]) -> (outcome: Result<
    ThreadPacket,
    CursorError,
>)
    ensures
        structured is Some ==> forwards(
            outcome,
            owner,
            classified(message_model(structured), None),
        ),
        structured is None ==> exists|picture: Option<Bitmap>| #[trigger]
            forwards(outcome, owner, classified(None, picture)),
{
    match structured {
        Some(UserPacket::State(state)) => Ok(ThreadPacket { owner, data: UserData::State(state) }),
        Some(UserPacket::AnimationSet(set)) => Ok(
            ThreadPacket { owner, data: UserData::AnimationStates(set) },
        ),
        None => {
            let picture = CursorImage::decode(datagram);
            let ghost seen = picture_model(picture);
            let outcome = classify_image(owner, picture);
            assert(forwards(outcome, owner, classified(None, seen)));
            outcome
        },
    }
}

/// One datagram as the classifier sees it: its sender, and what the two
/// decoders make of its bytes.
pub struct Datagram {
    pub owner: u64,
    pub structured: Option<Message>,
    pub picture: Option<Bitmap>,
}

impl Datagram {
    /// What is forwarded for the datagram, if anything.
    pub open spec fn forward(self) -> Option<(u64, Update)> {
        match classified(self.structured, self.picture) {
            Ok(update) => Some((self.owner, update)),
            Err(_) => None,
        }
    }

    /// The datagram is a structured pose message.
    pub open spec fn is_pose(self) -> bool {
        self.structured matches Some(Message::State(_))
    }

    /// Neither decoder makes anything of the datagram.
    pub open spec fn is_garbage(self) -> bool {
        self.structured is None && self.picture is None
    }
}

/// What is forwarded of a stream of datagrams, in the order of arrival.
pub open spec fn forwarded(datagrams: Seq<Datagram>) -> Seq<(u64, Update)> {
    datagrams.filter_map(|datagram: Datagram| datagram.forward())
}

/// What is forwarded of a stream is what is forwarded of its parts, one after
/// the other: no datagram changes what becomes of another.
pub proof fn lemma_forwarded_in_parts(earlier: Seq<Datagram>, later: Seq<Datagram>)
    ensures
        forwarded(earlier + later) == forwarded(earlier) + forwarded(later),
    decreases later.len(),
{
    if later.len() == 0 {
        assert(earlier + later == earlier);
        assert(forwarded(earlier) + forwarded(later) == forwarded(earlier));
    } else {
        lemma_forwarded_in_parts(earlier, later.drop_last());
        assert((earlier + later).drop_last() == earlier + later.drop_last());
        assert((earlier + later).last() == later.last());
        match later.last().forward() {
            Some(packet) => {
                assert(forwarded(earlier + later) == forwarded(earlier) + forwarded(later));
            },
            None => {},
        }
    }
}

/// Of a stream in which every datagram is a pose or garbage, exactly the poses
/// are forwarded, however the two kinds are interleaved.
pub proof fn lemma_forwarded_poses(datagrams: Seq<Datagram>)
    requires
        forall|i: int|
            0 <= i < datagrams.len() ==> #[trigger] datagrams[i].is_pose() || datagrams[i].is_garbage(),
    ensures
        forwarded(datagrams).len() == datagrams.filter(|datagram: Datagram| datagram.is_pose()).len(),
        forwarded(datagrams) == datagrams.filter(|datagram: Datagram| datagram.is_pose()).map_values(
            |datagram: Datagram| (datagram.owner, Update::State(datagram.structured->0->State_0)),
        ),
    decreases datagrams.len(),
{
    let poses = |datagram: Datagram| datagram.is_pose();
    let packet = |datagram: Datagram| (datagram.owner, Update::State(datagram.structured->0->State_0));
    reveal(Seq::filter);
    if datagrams.len() > 0 {
        let before = datagrams.drop_last();
        let last = datagrams.last();
        assert forall|i: int| 0 <= i < before.len() implies #[trigger] before[i].is_pose()
            || before[i].is_garbage() by {
            assert(before[i] == datagrams[i]);
        }
        lemma_forwarded_poses(before);
        assert(last == datagrams[datagrams.len() - 1]);
        if last.is_pose() {
            assert(datagrams.filter(poses) == before.filter(poses).push(last));
            assert(forwarded(datagrams) =~= datagrams.filter(poses).map_values(packet));
        } else {
            assert(last.is_garbage());
            assert(datagrams.filter(poses) == before.filter(poses));
        }
    } else {
        assert(forwarded(datagrams) =~= datagrams.filter(poses).map_values(packet));
    }
}

} // verus!
