# dmabuf_import

A verified cache of DMA-BUF imports for zero-copy video encoding.

The library (`src/`) decides, for each buffer that is to be encoded, whether a
cached Vulkan image can be reused or the buffer has to be imported, which stale
imports are to be destroyed, and what an import asks of the device step by step.
It makes no device or system call of its own: it hands out one action at a time
and is told what came of it.

| module       | what it holds                                                    |
|--------------|------------------------------------------------------------------|
| `params`     | the parameters that identify an import                           |
| `device`     | the actions and events between the importer and the world        |
| `raw_import` | the import of one buffer, from an image to memory bound to it    |
| `cache`      | cached imports and how they age                                  |
| `importer`   | the importer: the cache and the calls that use and fill it       |
| `kernel`     | the kernel version that the cache key depends on                 |
| `error`      | what can go wrong, and how it reads                              |
| `text`       | decimal text of numbers                                          |
| `laws`       | what holds of whole imports, whole calls and sequences of calls  |
| `accounting` | nothing imported is lost, and nothing is given up twice          |
| `handles`    | no image and no memory is held twice                             |
| `history`    | what holds throughout the life of an importer                    |

`app/` performs the actions with `ash` and `libc`.
