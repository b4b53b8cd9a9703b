//! The first steps of applying a block: its header and its randao reveal.
//!
//! The signature checks themselves are made outside; each step takes the
//! verdict of the check that belongs to it.

use crate::block::BeaconBlockHeader;
use crate::consts::LATEST_RANDAO_MIXES_LENGTH;
use crate::error::Error;
use crate::hashing::{keccak256, keccak256_digest};
use crate::primitives::{lemma_h256_of_view, spec_h256, zero_bytes, Signature, H256};
use crate::state::{BeaconState, BeaconStateView};
use vstd::prelude::*;

verus! {

/// The exclusive or of two strings of 32 bytes, byte by byte.
pub open spec fn spec_xor(a: Seq<u8>, b: Seq<u8>) -> Seq<u8> {
    Seq::new(32, |i: int| a[i] ^ b[i])
}

impl BeaconStateView {
    /// What applying the header of a block returns, given whether the
    /// proposer's signature holds.
    pub open spec fn process_block_header_result(
        &self,
        header: BeaconBlockHeader,
        signature_valid: bool,
    ) -> Result<(), Error> {
        if header.slot != self.slot {
            Err(Error::BlockSlotInvalid)
        } else if header.previous_block_root@ != self.latest_block_header.spec_truncated_hash() {
            Err(Error::BlockPreviousRootInvalid)
        } else if !signature_valid {
            Err(Error::BlockSignatureInvalid)
        } else {
            Ok(())
        }
    }

    /// The state that applying the header of a block leaves: the header
    /// becomes the latest one, with a zero state root for the next slot to
    /// fill; a header that is refused leaves the state as it was.
    pub open spec fn process_block_header(
        &self,
        header: BeaconBlockHeader,
        signature_valid: bool,
    ) -> BeaconStateView {
        if self.process_block_header_result(header, signature_valid) is Ok {
            BeaconStateView {
                latest_block_header: BeaconBlockHeader {
                    state_root: spec_h256(zero_bytes(32)),
                    ..header
                },
                ..*self
            }
        } else {
            *self
        }
    }

    /// What applying a randao reveal returns, given whether the reveal is
    /// the proposer's signature of the current epoch.
    pub open spec fn process_randao_result(&self, reveal_valid: bool) -> Result<(), Error> {
        if !reveal_valid {
            Err(Error::RandaoSignatureInvalid)
        } else if !self.has_randao_mix(self.current_epoch()) {
            Err(Error::EpochOutOfRange)
        } else {
            Ok(())
        }
    }

    /// The state that applying a randao reveal leaves: the mix of the
    /// current epoch becomes its exclusive or with the digest of the
    /// reveal; a reveal that is refused leaves the state as it was.
    pub open spec fn process_randao(&self, reveal: Signature, reveal_valid: bool) -> BeaconStateView {
        if self.process_randao_result(reveal_valid) is Ok {
            BeaconStateView {
                latest_randao_mixes: self.latest_randao_mixes.update(
                    (self.current_epoch() % LATEST_RANDAO_MIXES_LENGTH as u64) as int,
                    spec_h256(
                        spec_xor(
                            self.randao_mix(self.current_epoch())@,
                            keccak256_digest(reveal@),
                        ),
                    ),
                ),
                ..*self
            }
        } else {
            *self
        }
    }
}

impl BeaconState {
    /// Applies the header of a block.
    ///
    /// The block must be for the current slot (`BlockSlotInvalid`), must
    /// build on the latest block header (`BlockPreviousRootInvalid`: its
    /// previous root is the truncated root of that header), and the
    /// proposer's signature over the truncated root of `header` must hold
    /// (`BlockSignatureInvalid`); `signature_valid` is the verdict of that
    /// check.
    pub fn process_block_header(&mut self, header: &BeaconBlockHeader, signature_valid: bool) -> (r:
        Result<(), Error>)
        requires
            old(self).wf(),
        ensures
            r == old(self)@.process_block_header_result(*header, signature_valid),
            final(self)@ == old(self)@.process_block_header(*header, signature_valid),
            final(self).wf(),
    {
        if header.slot != self.slot {
            return Err(Error::BlockSlotInvalid);
        }
        if header.previous_block_root != self.latest_block_header.truncated_hash() {
            return Err(Error::BlockPreviousRootInvalid);
        }
        if !signature_valid {
            return Err(Error::BlockSignatureInvalid);
        }
        let zero = H256::zero();
        proof {
            lemma_h256_of_view(zero);
        }
        self.latest_block_header =
        BeaconBlockHeader {
            slot: header.slot,
            previous_block_root: header.previous_block_root,
            state_root: zero,
            block_body_root: header.block_body_root,
            signature: header.signature,
        };
        Ok(())
    }

    /// Applies the randao reveal of a block.
    ///
    /// The reveal must be the proposer's signature of the current epoch
    /// (`RandaoSignatureInvalid`); `reveal_valid` is the verdict of that
    /// check. The digest of the reveal is then mixed into the randao mix of
    /// the current epoch.
    pub fn process_randao(&mut self, reveal: &Signature, reveal_valid: bool) -> (r: Result<
        (),
        Error,
    >)
        requires
            old(self).wf(),
        ensures
            r == old(self)@.process_randao_result(reveal_valid),
            final(self)@ == old(self)@.process_randao(*reveal, reveal_valid),
            final(self).wf(),
    {
        if !reveal_valid {
            return Err(Error::RandaoSignatureInvalid);
        }
        let epoch = self.current_epoch();
        let mix = match self.randao_mix(epoch) {
            Ok(mix) => mix,
            Err(e) => {
                return Err(e);
            },
        };
        let digest = keccak256(reveal.bytes.as_slice());
        let mixed = mix.xor(&digest);
        proof {
            assert(mixed@ =~= spec_xor(mix@, digest@));
            lemma_h256_of_view(mixed);
        }
        self.latest_randao_mixes[(epoch % LATEST_RANDAO_MIXES_LENGTH as u64) as usize] = mixed;
        Ok(())
    }
}

} // verus!
