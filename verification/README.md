# risio

A verified core for ImageStreamIO (ISIO) images: streams of images that
processes share through POSIX shared memory and synchronise with semaphores.

`src/` is the library, verified with Verus:

- `datatype`: element types and image types, and their ISIO codes;
- `encoding`: little-endian encoding of the integers and arrays in an image;
- `imagestreamio`: open options, names and paths, the metadata of a new image;
  - `byte_structs`: the fixed-size structures stored in an image, with their
    byte representations, and the 384-byte metadata with its reader;
  - `layout`: where each region of an image lies;
  - `image`: an image in local memory, built from metadata and read back;
  - `access`: the stored name, the element-type check and the write flag;
- `scratch`: planning an image created from scratch, and its record;
- `shm`: names of shared-memory objects;
- `sem`: the steps of flushing a semaphore back to zero;
- `interface`: what tasks that use images are told.

`app/` holds what runs against the operating system: memory-mapped files,
semaphores, the clock, typed views of image data, the task loops and a
Python module.
